//! The verdict over the `wallet-platform-*` stages of a build of the second
//! backend generation.

use crate::drone::{DroneBuildInfo, DroneStage, DroneStatus};
use vstd::prelude::*;

verus! {

/// The pattern that selects the stages that count towards the system
/// status: every name that begins with `wallet-platform-`.
pub const WALLET_PLATFORM_PATTERN: &'static str = "^wallet-platform-.*";

/// Whether the regular expression `pattern` matches somewhere in
/// `haystack`, as the `regex` crate decides it: `None` where `pattern` does
/// not compile.
pub uninterp spec fn regex_search(pattern: Seq<char>, haystack: Seq<char>) -> Option<bool>;

/// `regex::Regex::new` on `pattern`, then `Regex::is_match` on `haystack`.
/// The result is a function of the two texts alone, and is named
/// `regex_search`; nothing more is claimed of it.
#[verifier::external_body]
pub(crate) fn regex_is_match(pattern: &str, haystack: &str) -> (found: Option<bool>)
    ensures
        found == regex_search(pattern@, haystack@),
{
    match regex::Regex::new(pattern) {
        Ok(compiled) => Some(compiled.is_match(haystack)),
        Err(_) => None,
    }
}

/// Whether a stage of this name counts towards the system status.
pub open spec fn is_wallet_platform_stage(name: Seq<char>) -> bool {
    regex_search(WALLET_PLATFORM_PATTERN@, name) == Some(true)
}

/// Whether a stage of this status makes the system fail: every status does
/// but `Success` and `Skipped`.
pub open spec fn fails_system(status: DroneStatus) -> bool {
    status != DroneStatus::Success && status != DroneStatus::Skipped
}

/// One step of the fold from a verdict, which is `Success` or `Failure`:
/// `Failure` stays `Failure`, and a running `Success` stays `Success` only
/// over a stage that succeeded or was skipped.
pub open spec fn fold_step(verdict: DroneStatus, status: DroneStatus) -> DroneStatus {
    if verdict == DroneStatus::Failure || fails_system(status) {
        DroneStatus::Failure
    } else {
        DroneStatus::Success
    }
}

/// The verdict over a list of statuses: `Failure` if any of them makes the
/// system fail, `Success` otherwise, and so `Success` over an empty list.
pub open spec fn folded_status(statuses: Seq<DroneStatus>) -> DroneStatus {
    if exists|i: int| 0 <= i < statuses.len() && fails_system(#[trigger] statuses[i]) {
        DroneStatus::Failure
    } else {
        DroneStatus::Success
    }
}

/// Which stages of a list count towards the system status: one answer for
/// each stage, in list order.
pub open spec fn wallet_platform_selection(stages: Seq<DroneStage>) -> Seq<bool> {
    Seq::new(stages.len(), |i: int| is_wallet_platform_stage(stages[i].common().name@))
}

/// The verdict over the stages of a build, given which of them count:
/// `Failure` if any stage that counts makes the system fail, `Success`
/// otherwise.
pub open spec fn selected_status(stages: Seq<DroneStage>, counts: Seq<bool>) -> DroneStatus {
    if exists|i: int|
        0 <= i < stages.len() && i < counts.len() && #[trigger] counts[i] && fails_system(
            stages[i].common().status,
        ) {
        DroneStatus::Failure
    } else {
        DroneStatus::Success
    }
}

/// The verdict over the stages of a build, those counting whose names
/// begin with `wallet-platform-`.
pub open spec fn system_status_of(stages: Seq<DroneStage>) -> DroneStatus {
    selected_status(stages, wallet_platform_selection(stages))
}

/// Folds one more status into a verdict. A verdict is `Success` or
/// `Failure`: to fold into any other status is a caller's error.
pub fn fold_status_step(verdict: DroneStatus, status: DroneStatus) -> (next: DroneStatus)
    requires
        verdict == DroneStatus::Success || verdict == DroneStatus::Failure,
    ensures
        next == fold_step(verdict, status),
        next == DroneStatus::Success || next == DroneStatus::Failure,
{
    match verdict {
        DroneStatus::Failure => DroneStatus::Failure,
        _ => match status {
            DroneStatus::Success => DroneStatus::Success,
            DroneStatus::Skipped => DroneStatus::Success,
            _ => DroneStatus::Failure,
        },
    }
}

/// Folds a list of statuses from the left, starting from `Success`.
pub fn fold_status(statuses: &Vec<DroneStatus>) -> (verdict: DroneStatus)
    ensures
        verdict == folded_status(statuses@),
        verdict == statuses@.fold_left(
            DroneStatus::Success,
            |verdict: DroneStatus, status: DroneStatus| fold_step(verdict, status),
        ),
{
    let mut verdict = DroneStatus::Success;
    let mut at: usize = 0;
    while at < statuses.len()
        invariant
            at <= statuses.len(),
            verdict == folded_status(statuses@.take(at as int)),
        decreases statuses.len() - at,
    {
        proof {
            lemma_folded_status_push(statuses@.take(at as int), statuses@[at as int]);
            assert(statuses@.take(at as int).push(statuses@[at as int]) == statuses@.take(
                at + 1,
            ));
        }
        verdict = fold_status_step(verdict, statuses[at]);
        at = at + 1;
    }
    proof {
        assert(statuses@.take(at as int) == statuses@);
        lemma_fold_left_is_folded_status(statuses@);
    }
    verdict
}

/// The verdict over a list with one more status at its end is one step of
/// the fold from the verdict over the list.
pub proof fn lemma_folded_status_push(statuses: Seq<DroneStatus>, status: DroneStatus)
    ensures
        folded_status(statuses.push(status)) == fold_step(folded_status(statuses), status),
{
    let longer = statuses.push(status);
    if folded_status(statuses) == DroneStatus::Failure {
        let i = choose|i: int| 0 <= i < statuses.len() && fails_system(#[trigger] statuses[i]);
        assert(fails_system(longer[i]));
    } else if fails_system(status) {
        assert(fails_system(longer[statuses.len() as int]));
    } else {
        if folded_status(longer) == DroneStatus::Failure {
            let i = choose|i: int| 0 <= i < longer.len() && fails_system(#[trigger] longer[i]);
            if i < statuses.len() {
                assert(fails_system(statuses[i]));
            }
        }
    }
}

/// The fold from the left, starting from `Success`, gives the verdict.
pub proof fn lemma_fold_left_is_folded_status(statuses: Seq<DroneStatus>)
    ensures
        statuses.fold_left(
            DroneStatus::Success,
            |verdict: DroneStatus, status: DroneStatus| fold_step(verdict, status),
        ) == folded_status(statuses),
    decreases statuses.len(),
{
    if statuses.len() > 0 {
        lemma_fold_left_is_folded_status(statuses.drop_last());
        lemma_folded_status_push(statuses.drop_last(), statuses.last());
        assert(statuses.drop_last().push(statuses.last()) == statuses);
    }
}

/// The verdict is `Success` or `Failure`, never another status.
pub proof fn lemma_verdict_is_success_or_failure(statuses: Seq<DroneStatus>)
    ensures
        folded_status(statuses) == DroneStatus::Success || folded_status(statuses)
            == DroneStatus::Failure,
{
}

/// `Failure` absorbs: one status that makes the system fail decides the
/// verdict, wherever in the list it stands and whatever stands around it.
pub proof fn lemma_failure_absorbs(
    before: Seq<DroneStatus>,
    status: DroneStatus,
    after: Seq<DroneStatus>,
)
    requires
        fails_system(status),
    ensures
        folded_status(before + seq![status] + after) == DroneStatus::Failure,
{
    let all = before + seq![status] + after;
    assert(fails_system(all[before.len() as int]));
}

/// A skipped stage changes no verdict, wherever in the list it stands.
pub proof fn lemma_skipped_is_neutral(before: Seq<DroneStatus>, after: Seq<DroneStatus>)
    ensures
        folded_status(before + seq![DroneStatus::Skipped] + after) == folded_status(
            before + after,
        ),
{
    let with = before + seq![DroneStatus::Skipped] + after;
    let without = before + after;
    if folded_status(with) == DroneStatus::Failure {
        let i = choose|i: int| 0 <= i < with.len() && fails_system(#[trigger] with[i]);
        if i < before.len() {
            assert(fails_system(without[i]));
        } else {
            assert(fails_system(without[i - 1]));
        }
    }
    if folded_status(without) == DroneStatus::Failure {
        let i = choose|i: int| 0 <= i < without.len() && fails_system(#[trigger] without[i]);
        if i < before.len() {
            assert(fails_system(with[i]));
        } else {
            assert(fails_system(with[i + 1]));
        }
    }
}

/// The verdict does not depend on the order of the statuses: two lists that
/// hold the same statuses, each as often, get the same verdict.
pub proof fn lemma_fold_ignores_order(one: Seq<DroneStatus>, other: Seq<DroneStatus>)
    requires
        one.to_multiset() == other.to_multiset(),
    ensures
        folded_status(one) == folded_status(other),
{
    one.to_multiset_ensures();
    other.to_multiset_ensures();
    if folded_status(one) == DroneStatus::Failure {
        let i = choose|i: int| 0 <= i < one.len() && fails_system(#[trigger] one[i]);
        assert(one.contains(one[i]));
        assert(one.to_multiset().count(one[i]) > 0);
        assert(other.to_multiset().count(one[i]) > 0);
        assert(other.contains(one[i]));
        let j = choose|j: int| 0 <= j < other.len() && other[j] == one[i];
        assert(fails_system(other[j]));
    }
    if folded_status(other) == DroneStatus::Failure {
        let i = choose|i: int| 0 <= i < other.len() && fails_system(#[trigger] other[i]);
        assert(other.contains(other[i]));
        assert(other.to_multiset().count(other[i]) > 0);
        assert(one.to_multiset().count(other[i]) > 0);
        assert(one.contains(other[i]));
        let j = choose|j: int| 0 <= j < one.len() && one[j] == other[i];
        assert(fails_system(one[j]));
    }
}

/// The statuses of the stages that count, in list order.
pub open spec fn statuses_that_count(stages: Seq<DroneStage>, counts: Seq<bool>) -> Seq<
    DroneStatus,
>
    decreases stages.len(),
{
    if stages.len() == 0 || counts.len() < stages.len() {
        Seq::empty()
    } else {
        let before = statuses_that_count(stages.drop_last(), counts.take(stages.len() - 1));
        if counts[stages.len() - 1] {
            before.push(stages.last().common().status)
        } else {
            before
        }
    }
}

/// The verdict over the stages that count is the fold over their statuses.
pub proof fn lemma_selected_status_is_fold(stages: Seq<DroneStage>, counts: Seq<bool>)
    requires
        counts.len() == stages.len(),
    ensures
        selected_status(stages, counts) == folded_status(statuses_that_count(stages, counts)),
    decreases stages.len(),
{
    if stages.len() > 0 {
        let last = stages.len() - 1;
        let fewer = stages.drop_last();
        let fewer_counts = counts.take(last);
        lemma_selected_status_is_fold(fewer, fewer_counts);
        let before = statuses_that_count(fewer, fewer_counts);
        if counts[last] {
            lemma_folded_status_push(before, stages.last().common().status);
        }
        if selected_status(fewer, fewer_counts) == DroneStatus::Failure {
            let i = choose|i: int|
                0 <= i < fewer.len() && i < fewer_counts.len() && #[trigger] fewer_counts[i]
                    && fails_system(fewer[i].common().status);
            assert(counts[i] && fails_system(stages[i].common().status));
        }
        if selected_status(stages, counts) == DroneStatus::Failure {
            let i = choose|i: int|
                0 <= i < stages.len() && i < counts.len() && #[trigger] counts[i] && fails_system(
                    stages[i].common().status,
                );
            if i < last {
                assert(fewer_counts[i] && fails_system(fewer[i].common().status));
            }
        }
    }
}

/// The system status of a list of stages, given which of them count: the
/// fold over the statuses of those that do. `counts` holds one answer for
/// each stage, in list order.
pub fn system_status_of_selected(stages: &Vec<DroneStage>, counts: &Vec<bool>) -> (status:
    DroneStatus)
    requires
        counts.len() == stages.len(),
    ensures
        status == selected_status(stages@, counts@),
        status == folded_status(statuses_that_count(stages@, counts@)),
{
    let mut selected: Vec<DroneStatus> = Vec::new();
    let mut at: usize = 0;
    while at < stages.len()
        invariant
            at <= stages.len(),
            counts.len() == stages.len(),
            selected@ == statuses_that_count(stages@.take(at as int), counts@.take(at as int)),
        decreases stages.len() - at,
    {
        proof {
            assert(stages@.take(at + 1).drop_last() == stages@.take(at as int));
            assert(counts@.take(at + 1).take(at as int) == counts@.take(at as int));
        }
        if counts[at] {
            selected.push(stages[at].get_status());
        }
        at = at + 1;
    }
    proof {
        assert(stages@.take(at as int) == stages@);
        assert(counts@.take(at as int) == counts@);
        lemma_selected_status_is_fold(stages@, counts@);
    }
    fold_status(&selected)
}

/// Asks of every stage whether it counts towards the system status: one
/// answer for each stage, in list order.
pub fn select_wallet_platform_stages(stages: &Vec<DroneStage>) -> (counts: Vec<bool>)
    ensures
        counts@ == wallet_platform_selection(stages@),
{
    let mut counts: Vec<bool> = Vec::new();
    let mut at: usize = 0;
    while at < stages.len()
        invariant
            at <= stages.len(),
            counts@ == wallet_platform_selection(stages@.take(at as int)),
        decreases stages.len() - at,
    {
        let found = regex_is_match(WALLET_PLATFORM_PATTERN, stages[at].name());
        let answer = match found {
            Some(answer) => answer,
            None => false,
        };
        counts.push(answer);
        proof {
            assert(counts@ == wallet_platform_selection(stages@.take(at + 1)));
        }
        at = at + 1;
    }
    proof {
        assert(stages@.take(at as int) == stages@);
    }
    counts
}

/// The system status of a build of the second backend generation: the fold
/// over the statuses of its stages whose names begin with
/// `wallet-platform-`. To ask this of a build without stages, or with a
/// stage of the first generation, is a caller's error; `is_drone2` tests
/// for it.
pub fn wallet_platform_system_status(drone_build_info: &DroneBuildInfo) -> (status: DroneStatus)
    requires
        drone_build_info.spec_is_drone2(),
    ensures
        status == system_status_of(drone_build_info.stages@),
{
    let counts = select_wallet_platform_stages(&drone_build_info.stages);
    system_status_of_selected(&drone_build_info.stages, &counts)
}

} // verus!
