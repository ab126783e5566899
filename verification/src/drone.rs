//! The schema model: a build, its stages and their steps, as both backend
//! generations report them.

use crate::link::{pr_number_from_link, pr_number_of_link};
use crate::text::{first_named, lemma_first_named_absent, lemma_first_named_found, str_eq};
use vstd::prelude::*;

verus! {

/// What happened to a pull request when a build was triggered. `Unset`
/// stands for the empty text that a backend sends where nothing applies.
#[derive(Debug, Clone, Copy, PartialEq, Eq, Structural)]
pub enum DroneAction {
    Create,
    Sync,
    Unset,
}

/// The state of a build, a stage or a step.
///
/// `Other` stands for every value that a backend may send and this model
/// does not know.
#[derive(Debug, Clone, Copy, PartialEq, Eq, Structural)]
pub enum DroneStatus {
    Success,
    Failure,
    Killed,
    Error,
    Running,
    Skipped,
    Pending,
    Other,
}

/// The kind of event that triggered a build.
#[derive(Debug, Clone, Copy, PartialEq, Eq, Structural)]
pub enum DroneEvent {
    PullRequest,
    Push,
    Tag,
    Other,
}

/// The commits a build is about.
#[derive(Debug, Clone)]
pub struct DroneGitMetadata {
    pub prev_git_sha: String,
    pub git_sha: String,
    pub git_ref: String,
}

/// The four instants of a build, in seconds since the Unix epoch. No order
/// among them is taken for granted: a backend fills `started` and
/// `finished` with estimates while the build still runs.
#[derive(Debug, Clone)]
pub struct DroneBuildTimestamps {
    pub started: i64,
    pub finished: i64,
    pub created: i64,
    pub updated: i64,
}

/// The four instants of a stage, in seconds since the Unix epoch.
#[derive(Debug, Clone)]
pub struct DroneStageTimestamps {
    pub started: i64,
    pub stopped: i64,
    pub created: i64,
    pub updated: i64,
}

/// Who authored the commit of a build. `author_avatar` holds the text of a
/// URL.
#[derive(Debug, Clone)]
pub struct DroneBuildAuthorData {
    pub author_login: String,
    pub author_name: String,
    pub author_email: String,
    pub author_avatar: String,
}

/// One entry of a backend's build list. `link` holds the text of the URL
/// from which the pull request's number is read.
#[derive(Debug, Clone)]
pub struct DroneBuildListItem {
    pub id: u32,
    pub repo_id: u32,
    pub trigger: String,
    pub number: u32,
    pub status: DroneStatus,
    pub event: DroneEvent,
    pub action: String,
    pub link: String,
    pub timestamp: u64,
    pub message: String,
    pub git_metadata: DroneGitMetadata,
    pub source_repo: String,
    pub source: String,
    pub target: String,
    pub author_data: DroneBuildAuthorData,
    pub sender: String,
    pub timestamps: DroneBuildTimestamps,
    pub version: u32,
}

/// A step as the first backend generation reports it, and the part of a
/// step that both generations share.
#[derive(Debug, Clone)]
pub struct Drone1Step {
    pub id: u32,
    pub step_id: u32,
    pub number: u32,
    pub name: String,
    pub status: DroneStatus,
    pub errignore: Option<bool>,
    pub exit_code: i32,
    pub started: Option<i64>,
    pub stopped: Option<i64>,
    pub version: u32,
}

/// A step as the second backend generation reports it.
#[derive(Debug, Clone)]
pub struct Drone2Step {
    pub drone_step: Drone1Step,
    pub depends_on: Option<Vec<String>>,
    pub image: String,
}

/// A step of either generation.
#[derive(Debug, Clone)]
pub enum DroneStep {
    Drone2Step(Drone2Step),
    Drone1Step(Drone1Step),
}

/// A stage as the first backend generation reports it, and the part of a
/// stage that both generations share.
#[derive(Debug, Clone)]
pub struct Drone1Stage {
    pub id: u32,
    pub repo_id: u32,
    pub build_id: u32,
    pub number: u32,
    pub name: String,
    pub status: DroneStatus,
    pub errignore: bool,
    pub exit_code: i32,
    pub machine: Option<String>,
    pub os: String,
    pub arch: String,
    pub timestamps: DroneStageTimestamps,
    pub version: u32,
    pub on_success: bool,
    pub on_failure: bool,
    pub steps: Vec<DroneStep>,
}

/// A stage as the second backend generation reports it.
#[derive(Debug, Clone)]
pub struct Drone2Stage {
    pub drone_stage: Drone1Stage,
    pub kind: String,
    pub stage_type: String,
    pub depends_on: Option<Vec<String>>,
}

/// A stage of either generation.
#[derive(Debug, Clone)]
pub enum DroneStage {
    Drone2Stage(Drone2Stage),
    Drone1Stage(Drone1Stage),
}

/// A build with its stages.
#[derive(Debug, Clone)]
pub struct DroneBuildInfo {
    pub build_info: DroneBuildListItem,
    pub stages: Vec<DroneStage>,
}

/// The names of a list of steps, in list order.
pub open spec fn step_names(steps: Seq<DroneStep>) -> Seq<Seq<char>> {
    Seq::new(steps.len(), |i: int| steps[i].common().name@)
}

/// The names of a list of stages, in list order.
pub open spec fn stage_names(stages: Seq<DroneStage>) -> Seq<Seq<char>> {
    Seq::new(stages.len(), |i: int| stages[i].common().name@)
}

impl DroneStep {
    /// The part of the step that both generations share.
    pub open spec fn common(self) -> Drone1Step {
        match self {
            DroneStep::Drone1Step(step) => step,
            DroneStep::Drone2Step(step) => step.drone_step,
        }
    }

    /// The seconds the step ran: its stop minus its start, where it has
    /// both.
    pub open spec fn spec_elapsed_time(self) -> int {
        self.common().stopped->0 - self.common().started->0
    }

    /// The step's name, whichever generation reported it.
    pub fn name(&self) -> (name: &str)
        ensures
            name@ == self.common().name@,
    {
        match self {
            DroneStep::Drone1Step(step) => step.name.as_str(),
            DroneStep::Drone2Step(step) => step.drone_step.name.as_str(),
        }
    }

    /// The step's status, whichever generation reported it.
    pub fn get_status(&self) -> (status: DroneStatus)
        ensures
            status == self.common().status,
    {
        match self {
            DroneStep::Drone1Step(step) => step.status,
            DroneStep::Drone2Step(step) => step.drone_step.status,
        }
    }

    /// When the step started, or `None` for a step that has not run.
    pub fn started(&self) -> (started: Option<i64>)
        ensures
            started == self.common().started,
    {
        match self {
            DroneStep::Drone1Step(step) => step.started,
            DroneStep::Drone2Step(step) => step.drone_step.started,
        }
    }

    /// When the step stopped, or `None` for a step that has not run.
    pub fn stopped(&self) -> (stopped: Option<i64>)
        ensures
            stopped == self.common().stopped,
    {
        match self {
            DroneStep::Drone1Step(step) => step.stopped,
            DroneStep::Drone2Step(step) => step.drone_step.stopped,
        }
    }

    /// When the step started. To ask this of a step that has not run is a
    /// caller's error.
    pub fn get_started_timestamp(&self) -> (started: i64)
        requires
            self.common().started is Some,
        ensures
            Some(started) == self.common().started,
    {
        match self.started() {
            Some(started) => started,
            None => 0,
        }
    }

    /// When the step stopped. To ask this of a step that has not run is a
    /// caller's error.
    pub fn get_stopped_timestamp(&self) -> (stopped: i64)
        requires
            self.common().stopped is Some,
        ensures
            Some(stopped) == self.common().stopped,
    {
        match self.stopped() {
            Some(stopped) => stopped,
            None => 0,
        }
    }

    /// The seconds the step ran: its stop minus its start.
    pub fn elapsed_time(&self) -> (elapsed: i64)
        requires
            self.common().started is Some,
            self.common().stopped is Some,
            i64::MIN <= self.spec_elapsed_time() <= i64::MAX,
        ensures
            elapsed == self.spec_elapsed_time(),
    {
        self.get_stopped_timestamp() - self.get_started_timestamp()
    }
}

impl DroneStage {
    /// The part of the stage that both generations share.
    pub open spec fn common(self) -> Drone1Stage {
        match self {
            DroneStage::Drone1Stage(stage) => stage,
            DroneStage::Drone2Stage(stage) => stage.drone_stage,
        }
    }

    /// The first step of the stage that is named `step_name`, if it has
    /// one.
    pub open spec fn spec_get_step(self, step_name: Seq<char>) -> Option<DroneStep> {
        match first_named(step_names(self.common().steps@), step_name) {
            Some(at) => Some(self.common().steps@[at]),
            None => None,
        }
    }

    /// The stage's name, whichever generation reported it.
    pub fn name(&self) -> (name: &str)
        ensures
            name@ == self.common().name@,
    {
        match self {
            DroneStage::Drone1Stage(stage) => stage.name.as_str(),
            DroneStage::Drone2Stage(stage) => stage.drone_stage.name.as_str(),
        }
    }

    /// The stage's status, whichever generation reported it.
    pub fn get_status(&self) -> (status: DroneStatus)
        ensures
            status == self.common().status,
    {
        match self {
            DroneStage::Drone1Stage(stage) => stage.status,
            DroneStage::Drone2Stage(stage) => stage.drone_stage.status,
        }
    }

    /// When the stage started, in seconds since the Unix epoch.
    pub fn started(&self) -> (started: i64)
        ensures
            started == self.common().timestamps.started,
    {
        match self {
            DroneStage::Drone1Stage(stage) => stage.timestamps.started,
            DroneStage::Drone2Stage(stage) => stage.drone_stage.timestamps.started,
        }
    }

    /// When the stage stopped, in seconds since the Unix epoch.
    pub fn stopped(&self) -> (stopped: i64)
        ensures
            stopped == self.common().timestamps.stopped,
    {
        match self {
            DroneStage::Drone1Stage(stage) => stage.timestamps.stopped,
            DroneStage::Drone2Stage(stage) => stage.drone_stage.timestamps.stopped,
        }
    }

    /// The stage's steps, in the order the backend listed them.
    pub fn steps(&self) -> (steps: &Vec<DroneStep>)
        ensures
            steps@ == self.common().steps@,
    {
        match self {
            DroneStage::Drone1Stage(stage) => &stage.steps,
            DroneStage::Drone2Stage(stage) => &stage.drone_stage.steps,
        }
    }

    /// Whether the second backend generation reported the stage.
    pub fn is_drone2(&self) -> (answer: bool)
        ensures
            answer == (*self is Drone2Stage),
    {
        match self {
            DroneStage::Drone1Stage(_) => false,
            DroneStage::Drone2Stage(_) => true,
        }
    }

    /// The first step of the stage that is named `step_name`, if it has
    /// one.
    pub fn get_step(&self, step_name: &str) -> (found: Option<&DroneStep>)
        ensures
            match found {
                Some(step) => self.spec_get_step(step_name@) == Some(*step),
                None => self.spec_get_step(step_name@) is None,
            },
    {
        let steps = self.steps();
        let ghost names = step_names(steps@);
        let mut at: usize = 0;
        while at < steps.len()
            invariant
                at <= steps.len(),
                steps@ == self.common().steps@,
                names == step_names(steps@),
                forall|j: int| 0 <= j < at ==> names[j] != step_name@,
            decreases steps.len() - at,
        {
            if str_eq(steps[at].name(), step_name) {
                proof {
                    lemma_first_named_found(names, step_name@, at as int);
                }
                return Some(&steps[at]);
            }
            at = at + 1;
        }
        proof {
            lemma_first_named_absent(names, step_name@);
        }
        None
    }
}

impl DroneBuildInfo {
    /// The first stage of the build that is named `stage_name`, if it has
    /// one.
    pub open spec fn spec_get_stage(self, stage_name: Seq<char>) -> Option<DroneStage> {
        match first_named(stage_names(self.stages@), stage_name) {
            Some(at) => Some(self.stages@[at]),
            None => None,
        }
    }

    /// The build has stages, and the second backend generation reported
    /// every one of them.
    pub open spec fn spec_is_drone2(self) -> bool {
        &&& self.stages@.len() > 0
        &&& forall|i: int| 0 <= i < self.stages@.len() ==> self.stages@[i] is Drone2Stage
    }

    /// The text of the build's link.
    pub fn get_pr_url(&self) -> (url: String)
        ensures
            url@ == self.build_info.link@,
    {
        self.build_info.link.clone()
    }

    /// The pull request's number, read from the build's link: its last path
    /// segment up to the first `.`. `None` exactly where the link has no
    /// path segments.
    pub fn checked_pr_number(&self) -> (number: Option<String>)
        ensures
            number.deep_view() == pr_number_of_link(self.build_info.link@),
    {
        match pr_number_from_link(self.build_info.link.as_str()) {
            Some(_) => Some(self.get_pr_number()),
            None => None,
        }
    }

    /// The pull request's number, read from the build's link: its last path
    /// segment up to the first `.`. To ask this of a link without path
    /// segments is a caller's error; `checked_pr_number` tests for it.
    pub fn get_pr_number(&self) -> (number: String)
        requires
            pr_number_of_link(self.build_info.link@) is Some,
        ensures
            Some(number@) == pr_number_of_link(self.build_info.link@),
    {
        match pr_number_from_link(self.build_info.link.as_str()) {
            Some(number) => number,
            None => String::new(),
        }
    }

    /// The first stage of the build that is named `stage_name`, if it has
    /// one.
    pub fn get_stage(&self, stage_name: &str) -> (found: Option<&DroneStage>)
        ensures
            match found {
                Some(stage) => self.spec_get_stage(stage_name@) == Some(*stage),
                None => self.spec_get_stage(stage_name@) is None,
            },
    {
        let ghost names = stage_names(self.stages@);
        let mut at: usize = 0;
        while at < self.stages.len()
            invariant
                at <= self.stages.len(),
                names == stage_names(self.stages@),
                forall|j: int| 0 <= j < at ==> names[j] != stage_name@,
            decreases self.stages.len() - at,
        {
            if str_eq(self.stages[at].name(), stage_name) {
                proof {
                    lemma_first_named_found(names, stage_name@, at as int);
                }
                return Some(&self.stages[at]);
            }
            at = at + 1;
        }
        proof {
            lemma_first_named_absent(names, stage_name@);
        }
        None
    }

    /// Whether the build has stages and the second backend generation
    /// reported every one of them.
    pub fn is_drone2(&self) -> (answer: bool)
        ensures
            answer == self.spec_is_drone2(),
    {
        if self.stages.len() == 0 {
            return false;
        }
        let mut at: usize = 0;
        while at < self.stages.len()
            invariant
                at <= self.stages.len(),
                forall|i: int| 0 <= i < at ==> self.stages@[i] is Drone2Stage,
            decreases self.stages.len() - at,
        {
            if !self.stages[at].is_drone2() {
                return false;
            }
            at = at + 1;
        }
        true
    }
}

/// A stage shows the same through the shared accessors whichever backend
/// generation reported it: two stages with equal shared parts have the same
/// name, status, instants and steps, and the same step under every name.
pub proof fn lemma_stage_generation_is_hidden(drone1: Drone1Stage, drone2: Drone2Stage)
    requires
        drone2.drone_stage == drone1,
    ensures
        DroneStage::Drone1Stage(drone1).common() == DroneStage::Drone2Stage(drone2).common(),
        forall|step_name: Seq<char>|
            DroneStage::Drone1Stage(drone1).spec_get_step(step_name) == DroneStage::Drone2Stage(
                drone2,
            ).spec_get_step(step_name),
{
}

/// A step shows the same through the shared accessors whichever backend
/// generation reported it: two steps with equal shared parts have the same
/// name, status, start, stop and elapsed time.
pub proof fn lemma_step_generation_is_hidden(drone1: Drone1Step, drone2: Drone2Step)
    requires
        drone2.drone_step == drone1,
    ensures
        DroneStep::Drone1Step(drone1).common() == DroneStep::Drone2Step(drone2).common(),
        DroneStep::Drone1Step(drone1).spec_elapsed_time() == DroneStep::Drone2Step(
            drone2,
        ).spec_elapsed_time(),
{
}

} // verus!
