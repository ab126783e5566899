//! Reconciliation of build records from two generations of a Drone CI
//! backend that track the same commits, and the timing and status metrics
//! derived from each pair of builds.

pub mod correlation;
pub mod drone;
pub mod link;
pub mod metrics;
pub mod paginator;
pub mod system_status;
pub mod text;
pub mod window;

pub use correlation::{Backend, CorrelationBucket, CorrelationMap};
pub use drone::{
    Drone1Stage, Drone1Step, Drone2Stage, Drone2Step, DroneAction, DroneBuildAuthorData,
    DroneBuildInfo, DroneBuildListItem, DroneBuildTimestamps, DroneEvent, DroneGitMetadata,
    DroneStage, DroneStageTimestamps, DroneStatus, DroneStep,
};
pub use metrics::{
    commit_outcomes, commit_row, row_of_pair, CommitOutcome, FatalError, Row, SkipReason,
};
pub use paginator::{DroneBuildList, DroneBuildsPaginator, PaginatorAction};
pub use system_status::wallet_platform_system_status;
pub use window::{
    filter_build, get_window_bounds, timestamp_to_system_time, FilterState, TimePoint,
};
