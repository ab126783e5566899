//! The metrics of one commit: what the two backends made of the same
//! change, as one row of the report.

use crate::correlation::{CorrelationBucket, CorrelationMap};
use crate::drone::{DroneBuildInfo, DroneStatus, DroneStep};
use crate::link::pr_number_of_link;
use crate::system_status::{
    select_wallet_platform_stages, selected_status, system_status_of_selected,
    wallet_platform_selection,
};
use vstd::prelude::*;

verus! {

/// The stage of a build of the first generation in which the tests run.
pub const BUILD_STAGE: &'static str = "build-pull-request";

/// The step that runs the unit tests.
pub const UNIT_TEST_STEP: &'static str = "run-wallet-platform-unit-tests";

/// The step that waits for the verdict of the second generation.
pub const AWAIT_STEP: &'static str = "await-wallet-platform-test-status";

/// Three minutes, in seconds.
pub const THREE_MINUTES: i64 = 180;

/// One row of the report. `pr_url` holds the text of a URL; the three
/// times are in seconds.
#[derive(Debug, Clone)]
pub struct Row {
    pub pr_number: String,
    pub pr_url: String,
    pub git_sha: String,
    pub drone1_build_number: u32,
    pub drone2_build_number: u32,
    pub drone1_unit_test_status: DroneStatus,
    pub drone1_await_test_status: DroneStatus,
    pub drone2_system_status: DroneStatus,
    pub drone1_unit_test_elapsed_time: i64,
    pub drone2_total_elapsed_time: i64,
    pub await_within_three_minutes_of_unit_test_start: bool,
    pub delta_await_complete_to_unit_test_start: i64,
}

/// What a row says, its texts as sequences of characters.
pub struct RowModel {
    pub pr_number: Seq<char>,
    pub pr_url: Seq<char>,
    pub git_sha: Seq<char>,
    pub drone1_build_number: u32,
    pub drone2_build_number: u32,
    pub drone1_unit_test_status: DroneStatus,
    pub drone1_await_test_status: DroneStatus,
    pub drone2_system_status: DroneStatus,
    pub drone1_unit_test_elapsed_time: int,
    pub drone2_total_elapsed_time: int,
    pub await_within_three_minutes_of_unit_test_start: bool,
    pub delta_await_complete_to_unit_test_start: int,
}

impl View for Row {
    type V = RowModel;

    open spec fn view(&self) -> RowModel {
        RowModel {
            pr_number: self.pr_number@,
            pr_url: self.pr_url@,
            git_sha: self.git_sha@,
            drone1_build_number: self.drone1_build_number,
            drone2_build_number: self.drone2_build_number,
            drone1_unit_test_status: self.drone1_unit_test_status,
            drone1_await_test_status: self.drone1_await_test_status,
            drone2_system_status: self.drone2_system_status,
            drone1_unit_test_elapsed_time: self.drone1_unit_test_elapsed_time as int,
            drone2_total_elapsed_time: self.drone2_total_elapsed_time as int,
            await_within_three_minutes_of_unit_test_start:
                self.await_within_three_minutes_of_unit_test_start,
            delta_await_complete_to_unit_test_start:
                self.delta_await_complete_to_unit_test_start as int,
        }
    }
}

/// Why a commit gets no row though nothing is wrong. The number is that of
/// the build of the first generation that stands for the commit.
#[derive(Debug, Clone, Copy, PartialEq, Eq, Structural)]
pub enum SkipReason {
    /// One backend, or both, reported no build for the commit.
    MissingSide,
    /// The build has no stage `build-pull-request`.
    MissingStage(u32),
    /// The stage has no step `run-wallet-platform-unit-tests`.
    MissingUnitTestStep(u32),
    /// The unit tests were skipped.
    UnitTestSkipped(u32),
    /// The stage has no step `await-wallet-platform-test-status`.
    MissingAwaitStep(u32),
}

/// What is wrong with a commit's builds in a way that ends the run.
#[derive(Debug, Clone, Copy, PartialEq, Eq, Structural)]
pub enum FatalError {
    /// The link of the build of the first generation has no path segments.
    LinkWithoutPath,
    /// The build of the second generation has no stages, or holds a stage
    /// of the first generation.
    NotDrone2,
    /// A step that is measured has no start or no stop.
    MissingTimestamp,
    /// A difference of two instants does not fit in 64 bits.
    Overflow,
}

/// What becomes of one commit.
#[derive(Debug, Clone)]
pub enum CommitOutcome {
    Row(Row),
    Skipped(SkipReason),
    Fatal(FatalError),
}

/// What becomes of one commit, a row by what it says.
pub enum CommitOutcomeModel {
    Row(RowModel),
    Skipped(SkipReason),
    Fatal(FatalError),
}

impl View for CommitOutcome {
    type V = CommitOutcomeModel;

    open spec fn view(&self) -> CommitOutcomeModel {
        match self {
            CommitOutcome::Row(row) => CommitOutcomeModel::Row(row@),
            CommitOutcome::Skipped(reason) => CommitOutcomeModel::Skipped(*reason),
            CommitOutcome::Fatal(error) => CommitOutcomeModel::Fatal(*error),
        }
    }
}

/// `at` is the place of the build that stands for a commit: the first of
/// those with the lowest number, so that the earliest attempt wins.
pub open spec fn is_representative(builds: Seq<DroneBuildInfo>, at: int) -> bool {
    &&& 0 <= at < builds.len()
    &&& forall|j: int|
        0 <= j < builds.len() ==> builds[at].build_info.number <= (
        #[trigger] builds[j]).build_info.number
    &&& forall|j: int|
        0 <= j < at ==> (#[trigger] builds[j]).build_info.number != builds[at].build_info.number
}

/// The build that stands for a commit, among those that one backend
/// reported for it.
pub open spec fn representative_of(builds: Seq<DroneBuildInfo>) -> DroneBuildInfo {
    builds[choose|at: int| is_representative(builds, at)]
}

/// There is one such place, so any that is known gives the build.
pub proof fn lemma_representative(builds: Seq<DroneBuildInfo>, at: int)
    requires
        is_representative(builds, at),
    ensures
        representative_of(builds) == builds[at],
{
    let chosen = choose|at: int| is_representative(builds, at);
    assert(is_representative(builds, chosen));
    if chosen < at {
        assert(builds[chosen].build_info.number != builds[at].build_info.number);
        assert(builds[at].build_info.number <= builds[chosen].build_info.number);
        assert(builds[chosen].build_info.number <= builds[at].build_info.number);
    } else if at < chosen {
        assert(builds[at].build_info.number != builds[chosen].build_info.number);
        assert(builds[at].build_info.number <= builds[chosen].build_info.number);
        assert(builds[chosen].build_info.number <= builds[at].build_info.number);
    }
}

/// Whether a difference of two instants fits in 64 bits.
pub open spec fn fits(seconds: int) -> bool {
    i64::MIN <= seconds <= i64::MAX
}

/// The row of a pair of builds that hold all that is measured, or what is
/// wrong with them. `counts` says which stages of the second build count
/// towards its system status. The checks stand in the order in which they
/// are made.
pub open spec fn measured(
    git_sha: Seq<char>,
    pr_number: Seq<char>,
    drone1_build: DroneBuildInfo,
    drone2_build: DroneBuildInfo,
    counts: Seq<bool>,
    unit_test: DroneStep,
    await_test: DroneStep,
) -> CommitOutcomeModel {
    let unit_started = unit_test.common().started;
    let unit_stopped = unit_test.common().stopped;
    let await_stopped = await_test.common().stopped;
    let drone2_started = drone2_build.build_info.timestamps.started;
    if !drone2_build.spec_is_drone2() {
        CommitOutcomeModel::Fatal(FatalError::NotDrone2)
    } else if unit_stopped is None || unit_started is None {
        CommitOutcomeModel::Fatal(FatalError::MissingTimestamp)
    } else if !fits(unit_stopped->0 - unit_started->0) {
        CommitOutcomeModel::Fatal(FatalError::Overflow)
    } else if await_stopped is None {
        CommitOutcomeModel::Fatal(FatalError::MissingTimestamp)
    } else if !fits(await_stopped->0 - drone2_started) || !fits(
        await_stopped->0 - unit_started->0,
    ) {
        CommitOutcomeModel::Fatal(FatalError::Overflow)
    } else {
        CommitOutcomeModel::Row(
            RowModel {
                pr_number,
                pr_url: drone2_build.build_info.link@,
                git_sha,
                drone1_build_number: drone1_build.build_info.number,
                drone2_build_number: drone2_build.build_info.number,
                drone1_unit_test_status: unit_test.common().status,
                drone1_await_test_status: await_test.common().status,
                drone2_system_status: selected_status(drone2_build.stages@, counts),
                drone1_unit_test_elapsed_time: unit_stopped->0 - unit_started->0,
                drone2_total_elapsed_time: await_stopped->0 - drone2_started,
                await_within_three_minutes_of_unit_test_start: await_stopped->0 - unit_started->0
                    < THREE_MINUTES,
                delta_await_complete_to_unit_test_start: await_stopped->0 - unit_started->0,
            },
        )
    }
}

/// What becomes of a commit, given the two builds that stand for it, the
/// pull request's number as read from the link of the first (`None` where
/// the link has no path segments), and which stages of the second count
/// towards its system status. The checks stand in the order in which they
/// are made: the number is asked for before the stages are looked at.
pub open spec fn pair_outcome(
    git_sha: Seq<char>,
    drone1_build: DroneBuildInfo,
    drone2_build: DroneBuildInfo,
    pr_number: Option<Seq<char>>,
    counts: Seq<bool>,
) -> CommitOutcomeModel {
    let number = drone1_build.build_info.number;
    match pr_number {
        None => CommitOutcomeModel::Fatal(FatalError::LinkWithoutPath),
        Some(pr_number) => match drone1_build.spec_get_stage(BUILD_STAGE@) {
            None => CommitOutcomeModel::Skipped(SkipReason::MissingStage(number)),
            Some(stage) => match stage.spec_get_step(UNIT_TEST_STEP@) {
                None => CommitOutcomeModel::Skipped(SkipReason::MissingUnitTestStep(number)),
                Some(unit_test) => if unit_test.common().status == DroneStatus::Skipped {
                    CommitOutcomeModel::Skipped(SkipReason::UnitTestSkipped(number))
                } else {
                    match stage.spec_get_step(AWAIT_STEP@) {
                        None => CommitOutcomeModel::Skipped(SkipReason::MissingAwaitStep(number)),
                        Some(await_test) => measured(
                            git_sha,
                            pr_number,
                            drone1_build,
                            drone2_build,
                            counts,
                            unit_test,
                            await_test,
                        ),
                    }
                },
            },
        }
    }
}

/// What becomes of a commit, given the builds that each backend reported
/// for it: nothing where a side is empty, and otherwise what becomes of
/// the two builds that stand for it, with the number that the link of the
/// first spells and the stages of the second whose names begin with
/// `wallet-platform-`.
pub open spec fn commit_outcome(
    git_sha: Seq<char>,
    drone1_builds: Seq<DroneBuildInfo>,
    drone2_builds: Seq<DroneBuildInfo>,
) -> CommitOutcomeModel {
    if drone1_builds.len() == 0 || drone2_builds.len() == 0 {
        CommitOutcomeModel::Skipped(SkipReason::MissingSide)
    } else {
        let drone1_build = representative_of(drone1_builds);
        let drone2_build = representative_of(drone2_builds);
        pair_outcome(
            git_sha,
            drone1_build,
            drone2_build,
            pr_number_of_link(drone1_build.build_info.link@),
            wallet_platform_selection(drone2_build.stages@),
        )
    }
}

/// Whether the wait ended within three minutes of the start of the unit
/// tests: `delta` is the one minus the other, in seconds.
pub fn within_three_minutes(delta: i64) -> (within: bool)
    ensures
        within == (delta < THREE_MINUTES),
{
    delta < THREE_MINUTES
}

/// The build that stands for a commit: the first of those with the lowest
/// number.
pub fn representative(builds: &Vec<DroneBuildInfo>) -> (build: &DroneBuildInfo)
    requires
        builds.len() > 0,
    ensures
        *build == representative_of(builds@),
        exists|at: int| is_representative(builds@, at) && builds@[at] == *build,
{
    let mut best: usize = 0;
    let mut at: usize = 1;
    while at < builds.len()
        invariant
            0 <= best < at <= builds.len(),
            is_representative(builds@.take(at as int), best as int),
        decreases builds.len() - at,
    {
        let ghost seen = builds@.take(at as int);
        let ghost next = builds@.take(at + 1);
        if builds[at].build_info.number < builds[best].build_info.number {
            proof {
                assert forall|j: int| 0 <= j < next.len() implies next[at as int].build_info.number
                    <= (#[trigger] next[j]).build_info.number by {
                    if j < at {
                        assert(seen[best as int].build_info.number <= seen[j].build_info.number);
                    }
                }
                assert forall|j: int| 0 <= j < at implies (#[trigger] next[j]).build_info.number
                    != next[at as int].build_info.number by {
                    assert(seen[best as int].build_info.number <= seen[j].build_info.number);
                }
            }
            best = at;
        } else {
            proof {
                assert forall|j: int| 0 <= j < next.len() implies next[best as int].build_info.number
                    <= (#[trigger] next[j]).build_info.number by {
                    if j < at {
                        assert(seen[best as int].build_info.number <= seen[j].build_info.number);
                    }
                }
                assert forall|j: int| 0 <= j < best implies (#[trigger] next[j]).build_info.number
                    != next[best as int].build_info.number by {
                    assert(seen[j].build_info.number != seen[best as int].build_info.number);
                }
            }
        }
        at = at + 1;
    }
    proof {
        assert(builds@.take(at as int) == builds@);
        lemma_representative(builds@, best as int);
    }
    &builds[best]
}

/// Works out the row of a commit from the two builds that stand for it,
/// or says why there is none. `pr_number` is the pull request's number as
/// read from the link of the first build, `None` where the link has no
/// path segments; `counts` holds, for each stage of the second build in
/// list order, whether it counts towards the system status.
pub fn row_of_pair(
    git_sha: &str,
    drone1_build: &DroneBuildInfo,
    drone2_build: &DroneBuildInfo,
    pr_number: Option<String>,
    counts: &Vec<bool>,
) -> (outcome: CommitOutcome)
    requires
        counts.len() == drone2_build.stages.len(),
    ensures
        outcome@ == pair_outcome(
            git_sha@,
            *drone1_build,
            *drone2_build,
            pr_number.deep_view(),
            counts@,
        ),
{
    let drone1_build_number = drone1_build.build_info.number;
    let drone2_build_number = drone2_build.build_info.number;
    let pr_number = match pr_number {
        Some(pr_number) => pr_number,
        None => {
            return CommitOutcome::Fatal(FatalError::LinkWithoutPath);
        },
    };
    let pr_url = drone2_build.get_pr_url();
    let drone1_stage = match drone1_build.get_stage(BUILD_STAGE) {
        Some(stage) => stage,
        None => {
            return CommitOutcome::Skipped(SkipReason::MissingStage(drone1_build_number));
        },
    };
    let drone1_unit_test_step = match drone1_stage.get_step(UNIT_TEST_STEP) {
        Some(step) => step,
        None => {
            return CommitOutcome::Skipped(SkipReason::MissingUnitTestStep(drone1_build_number));
        },
    };
    if drone1_unit_test_step.get_status() == DroneStatus::Skipped {
        return CommitOutcome::Skipped(SkipReason::UnitTestSkipped(drone1_build_number));
    }
    let drone1_await_test_step = match drone1_stage.get_step(AWAIT_STEP) {
        Some(step) => step,
        None => {
            return CommitOutcome::Skipped(SkipReason::MissingAwaitStep(drone1_build_number));
        },
    };
    let drone1_unit_test_status = drone1_unit_test_step.get_status();
    let drone1_await_test_status = drone1_await_test_step.get_status();
    if !drone2_build.is_drone2() {
        return CommitOutcome::Fatal(FatalError::NotDrone2);
    }
    let drone2_system_status = system_status_of_selected(&drone2_build.stages, counts);
    let (unit_started, unit_stopped) = match (
        drone1_unit_test_step.started(),
        drone1_unit_test_step.stopped(),
    ) {
        (Some(started), Some(stopped)) => (started, stopped),
        _ => {
            return CommitOutcome::Fatal(FatalError::MissingTimestamp);
        },
    };
    let drone1_unit_test_elapsed_time = match unit_stopped.checked_sub(unit_started) {
        Some(elapsed) => elapsed,
        None => {
            return CommitOutcome::Fatal(FatalError::Overflow);
        },
    };
    let await_stopped = match drone1_await_test_step.stopped() {
        Some(stopped) => stopped,
        None => {
            return CommitOutcome::Fatal(FatalError::MissingTimestamp);
        },
    };
    let drone2_total_elapsed_time = match await_stopped.checked_sub(
        drone2_build.build_info.timestamps.started,
    ) {
        Some(elapsed) => elapsed,
        None => {
            return CommitOutcome::Fatal(FatalError::Overflow);
        },
    };
    let delta_await_complete_to_unit_test_start = match await_stopped.checked_sub(unit_started) {
        Some(delta) => delta,
        None => {
            return CommitOutcome::Fatal(FatalError::Overflow);
        },
    };
    let await_within_three_minutes_of_unit_test_start = within_three_minutes(
        delta_await_complete_to_unit_test_start,
    );
    CommitOutcome::Row(
        Row {
            pr_number,
            pr_url,
            git_sha: git_sha.to_owned(),
            drone1_build_number,
            drone2_build_number,
            drone1_unit_test_status,
            drone1_await_test_status,
            drone2_system_status,
            drone1_unit_test_elapsed_time,
            drone2_total_elapsed_time,
            await_within_three_minutes_of_unit_test_start,
            delta_await_complete_to_unit_test_start,
        },
    )
}

/// Works out the row of a commit from the builds that each backend
/// reported for it, or says why there is none.
pub fn commit_row(
    git_sha: &str,
    drone1_builds: &Vec<DroneBuildInfo>,
    drone2_builds: &Vec<DroneBuildInfo>,
) -> (outcome: CommitOutcome)
    ensures
        outcome@ == commit_outcome(git_sha@, drone1_builds@, drone2_builds@),
{
    if drone1_builds.len() == 0 || drone2_builds.len() == 0 {
        return CommitOutcome::Skipped(SkipReason::MissingSide);
    }
    let drone1_build = representative(drone1_builds);
    let drone2_build = representative(drone2_builds);
    let pr_number = drone1_build.checked_pr_number();
    let counts = select_wallet_platform_stages(&drone2_build.stages);
    row_of_pair(git_sha, drone1_build, drone2_build, pr_number, &counts)
}

/// What becomes of the commit of one bucket.
pub open spec fn bucket_outcome(bucket: CorrelationBucket) -> CommitOutcomeModel {
    commit_outcome(bucket.git_sha@, bucket.drone1_builds@, bucket.drone2_builds@)
}

/// What becomes of every commit of the map, in the order of its buckets.
/// Each commit is judged by its own bucket alone: one that gets no row
/// takes nothing from the others.
pub fn commit_outcomes(map: &CorrelationMap) -> (outcomes: Vec<CommitOutcome>)
    ensures
        outcomes@.len() == map.buckets().len(),
        forall|i: int|
            0 <= i < outcomes@.len() ==> (#[trigger] outcomes@[i])@ == bucket_outcome(
                map.buckets()[i],
            ),
{
    let mut outcomes: Vec<CommitOutcome> = Vec::new();
    let mut at: usize = 0;
    while at < map.len()
        invariant
            at <= map.buckets().len(),
            outcomes@.len() == at,
            forall|i: int|
                0 <= i < at ==> (#[trigger] outcomes@[i])@ == bucket_outcome(map.buckets()[i]),
        decreases map.buckets().len() - at,
    {
        let bucket = map.bucket(at);
        let outcome = commit_row(
            bucket.git_sha.as_str(),
            &bucket.drone1_builds,
            &bucket.drone2_builds,
        );
        outcomes.push(outcome);
        at = at + 1;
    }
    outcomes
}

/// A commit for which a backend reported no build gets no row, whatever
/// the other backend reported.
pub proof fn lemma_missing_side_is_skipped(
    git_sha: Seq<char>,
    drone1_builds: Seq<DroneBuildInfo>,
    drone2_builds: Seq<DroneBuildInfo>,
)
    requires
        drone1_builds.len() == 0 || drone2_builds.len() == 0,
    ensures
        commit_outcome(git_sha, drone1_builds, drone2_builds) == CommitOutcomeModel::Skipped(
            SkipReason::MissingSide,
        ),
{
}

/// A pair whose build of the first generation lacks the stage
/// `build-pull-request`, a step that is measured, or whose unit tests were
/// skipped, is skipped: it gets no row, and it does not end the run. The
/// link of that build is read before its stages, so this holds of the
/// pairs whose link spelled a number.
pub proof fn lemma_incomplete_build_is_skipped(
    git_sha: Seq<char>,
    drone1_build: DroneBuildInfo,
    drone2_build: DroneBuildInfo,
    pr_number: Seq<char>,
    counts: Seq<bool>,
)
    ensures
        ({
            let outcome = pair_outcome(
                git_sha,
                drone1_build,
                drone2_build,
                Some(pr_number),
                counts,
            );
            let number = drone1_build.build_info.number;
            let stage = drone1_build.spec_get_stage(BUILD_STAGE@);
            let unit_test = stage->0.spec_get_step(UNIT_TEST_STEP@);
            &&& stage is None ==> outcome == CommitOutcomeModel::Skipped(
                SkipReason::MissingStage(number),
            )
            &&& stage is Some && unit_test is None ==> outcome == CommitOutcomeModel::Skipped(
                SkipReason::MissingUnitTestStep(number),
            )
            &&& stage is Some && unit_test is Some && unit_test->0.common().status
                == DroneStatus::Skipped ==> outcome == CommitOutcomeModel::Skipped(
                SkipReason::UnitTestSkipped(number),
            )
            &&& stage is Some && unit_test is Some && unit_test->0.common().status
                != DroneStatus::Skipped && stage->0.spec_get_step(AWAIT_STEP@) is None ==> outcome
                == CommitOutcomeModel::Skipped(SkipReason::MissingAwaitStep(number))
        }),
{
}

/// A commit whose build of the first generation has no stage
/// `build-pull-request` is skipped: it gets no row, and it does not end the
/// run. The link of that build is read before its stages, so this holds of
/// the commits whose link has path segments.
pub proof fn lemma_missing_stage_is_skipped(
    git_sha: Seq<char>,
    drone1_builds: Seq<DroneBuildInfo>,
    drone2_builds: Seq<DroneBuildInfo>,
)
    requires
        drone1_builds.len() > 0,
        drone2_builds.len() > 0,
        pr_number_of_link(representative_of(drone1_builds).build_info.link@) is Some,
        representative_of(drone1_builds).spec_get_stage(BUILD_STAGE@) is None,
    ensures
        commit_outcome(git_sha, drone1_builds, drone2_builds) == CommitOutcomeModel::Skipped(
            SkipReason::MissingStage(representative_of(drone1_builds).build_info.number),
        ),
{
}

/// What every row holds: the commit it was asked for, the numbers of the
/// two builds that stand for the commit, the link of the second, a system
/// status that is `Success` or `Failure`, unit tests that were not
/// skipped, and the flag set exactly where the delta is under three
/// minutes.
pub proof fn lemma_row_is_consistent(
    git_sha: Seq<char>,
    drone1_builds: Seq<DroneBuildInfo>,
    drone2_builds: Seq<DroneBuildInfo>,
)
    requires
        commit_outcome(git_sha, drone1_builds, drone2_builds) is Row,
    ensures
        ({
            let row = commit_outcome(git_sha, drone1_builds, drone2_builds)->Row_0;
            &&& row.git_sha == git_sha
            &&& row.pr_url == representative_of(drone2_builds).build_info.link@
            &&& row.drone1_build_number == representative_of(drone1_builds).build_info.number
            &&& row.drone2_build_number == representative_of(drone2_builds).build_info.number
            &&& row.drone2_system_status == DroneStatus::Success || row.drone2_system_status
                == DroneStatus::Failure
            &&& row.drone1_unit_test_status != DroneStatus::Skipped
            &&& row.await_within_three_minutes_of_unit_test_start == (
            row.delta_await_complete_to_unit_test_start < 180)
        }),
{
}

/// No commit gets two rows: the rows of a well-formed map are of different
/// commits.
pub proof fn lemma_one_row_for_each_commit(map: CorrelationMap, one: int, other: int)
    requires
        map.wf(),
        0 <= one < other < map.buckets().len(),
        bucket_outcome(map.buckets()[one]) is Row,
        bucket_outcome(map.buckets()[other]) is Row,
    ensures
        bucket_outcome(map.buckets()[one])->Row_0.git_sha != bucket_outcome(
            map.buckets()[other],
        )->Row_0.git_sha,
{
    let first = map.buckets()[one];
    let second = map.buckets()[other];
    lemma_row_is_consistent(first.git_sha@, first.drone1_builds@, first.drone2_builds@);
    lemma_row_is_consistent(second.git_sha@, second.drone1_builds@, second.drone2_builds@);
}

} // verus!
