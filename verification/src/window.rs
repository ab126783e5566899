//! The time window in which builds are compared, and the filter that
//! decides for each entry of a build list whether it is compared.

use crate::drone::{DroneBuildListItem, DroneEvent, DroneStatus};
use crate::text::str_eq;
use vstd::prelude::*;

verus! {

pub const NANOS_PER_SECOND: i128 = 1_000_000_000;

pub const NANOS_PER_HOUR: i128 = 3_600_000_000_000;

/// The branch whose pushes are compared in develop mode.
pub const DEVELOP_BRANCH: &'static str = "develop";

/// An instant, counted in nanoseconds from the Unix epoch.
#[derive(Debug, Clone, Copy, PartialEq, Eq, Structural)]
pub struct TimePoint {
    pub nanos: i128,
}

/// What to do with one entry of a build list.
#[derive(Debug, Clone, Copy, PartialEq, Eq, Structural)]
pub enum FilterState {
    /// The entry lies before the window, and so does every older one: stop
    /// reading the list.
    Break,
    /// The entry is not compared; an older one may be.
    Continue,
    /// The entry is compared: fetch the build of this number.
    Admit(u32),
}

/// The instant that a signed count of seconds since the Unix epoch stands
/// for: a negative count lies before the epoch.
pub open spec fn time_of(timestamp: i64) -> TimePoint {
    TimePoint { nanos: (timestamp * NANOS_PER_SECOND) as i128 }
}

/// The window that starts `window_offset` hours before `now` and reaches
/// `window_duration` hours further into the past: its start, the bound
/// nearer to now, and its end.
pub open spec fn window_bounds(
    now: TimePoint,
    window_duration: u64,
    window_offset: Option<u64>,
) -> (int, int) {
    let offset = match window_offset {
        Some(hours) => hours as int,
        None => 0,
    };
    let start = now.nanos - offset * NANOS_PER_HOUR;
    (start, start - window_duration * NANOS_PER_HOUR)
}

/// Whether the mode compares builds of this event: in develop mode pushes
/// from `develop` to `develop`, otherwise pull requests.
pub open spec fn mode_admits(item: DroneBuildListItem, develop: bool) -> bool {
    if develop {
        item.event == DroneEvent::Push && item.source@ == DEVELOP_BRANCH@ && item.target@
            == DEVELOP_BRANCH@
    } else {
        item.event == DroneEvent::PullRequest
    }
}

/// What the filter decides of an entry. Of the entry's four instants it
/// reads two, `finished` and `created`.
pub open spec fn filter_decision(
    item: DroneBuildListItem,
    window_start: TimePoint,
    window_end: TimePoint,
    develop: bool,
) -> FilterState {
    let finished = time_of(item.timestamps.finished).nanos;
    let created = time_of(item.timestamps.created).nanos;
    if finished < window_end.nanos && created < window_end.nanos {
        FilterState::Break
    } else if finished > window_start.nanos || created < window_end.nanos {
        FilterState::Continue
    } else if !mode_admits(item, develop) {
        FilterState::Continue
    } else if item.status == DroneStatus::Running {
        FilterState::Continue
    } else {
        FilterState::Admit(item.number)
    }
}

/// The instant that a signed count of seconds since the Unix epoch stands
/// for.
pub fn timestamp_to_system_time(timestamp: i64) -> (instant: TimePoint)
    ensures
        instant == time_of(timestamp),
        instant.nanos == timestamp * NANOS_PER_SECOND,
{
    TimePoint { nanos: (timestamp as i128) * NANOS_PER_SECOND }
}

/// The bounds of the window, start first. The window must not reach
/// further back than a `TimePoint` can say.
pub fn get_window_bounds(
    now: TimePoint,
    window_duration: u64,
    window_offset: Option<u64>,
) -> (bounds: (TimePoint, TimePoint))
    requires
        window_bounds(now, window_duration, window_offset).1 >= i128::MIN,
    ensures
        bounds.0.nanos == window_bounds(now, window_duration, window_offset).0,
        bounds.1.nanos == window_bounds(now, window_duration, window_offset).1,
        bounds.1.nanos <= bounds.0.nanos <= now.nanos,
{
    let window_start = match window_offset {
        Some(hours) => TimePoint { nanos: now.nanos - (hours as i128) * NANOS_PER_HOUR },
        None => now,
    };
    let window_end = TimePoint {
        nanos: window_start.nanos - (window_duration as i128) * NANOS_PER_HOUR,
    };
    (window_start, window_end)
}

/// Whether the mode compares builds of the entry's event.
pub fn mode_admits_item(item: &DroneBuildListItem, develop: bool) -> (admits: bool)
    ensures
        admits == mode_admits(*item, develop),
{
    if develop {
        item.event == DroneEvent::Push && str_eq(item.source.as_str(), DEVELOP_BRANCH) && str_eq(
            item.target.as_str(),
            DEVELOP_BRANCH,
        )
    } else {
        item.event == DroneEvent::PullRequest
    }
}

/// Decides what to do with one entry of a build list that runs from the
/// newest build to the oldest.
pub fn filter_build(
    drone_build_list_item: &DroneBuildListItem,
    window_start: &TimePoint,
    window_end: &TimePoint,
    develop: bool,
) -> (state: FilterState)
    ensures
        state == filter_decision(*drone_build_list_item, *window_start, *window_end, develop),
{
    let finished = timestamp_to_system_time(drone_build_list_item.timestamps.finished);
    let created = timestamp_to_system_time(drone_build_list_item.timestamps.created);
    if finished.nanos < window_end.nanos && created.nanos < window_end.nanos {
        return FilterState::Break;
    }
    if finished.nanos > window_start.nanos || created.nanos < window_end.nanos {
        return FilterState::Continue;
    }
    if !mode_admits_item(drone_build_list_item, develop) {
        return FilterState::Continue;
    }
    if drone_build_list_item.status == DroneStatus::Running {
        return FilterState::Continue;
    }
    FilterState::Admit(drone_build_list_item.number)
}

/// The instants keep the order of the counts they are made from.
pub proof fn lemma_time_of_keeps_order(earlier: i64, later: i64)
    ensures
        earlier < later <==> time_of(earlier).nanos < time_of(later).nanos,
        earlier == later <==> time_of(earlier) == time_of(later),
{
}

/// The filter reads `finished` and `created` and no other instant of the
/// entry: two entries that differ in nothing else that it reads get the
/// same decision, whatever their `started` and `updated` hold and in
/// whatever order the four instants stand.
pub proof fn lemma_filter_reads_finished_and_created(
    one: DroneBuildListItem,
    other: DroneBuildListItem,
    window_start: TimePoint,
    window_end: TimePoint,
    develop: bool,
)
    requires
        one.timestamps.finished == other.timestamps.finished,
        one.timestamps.created == other.timestamps.created,
        one.number == other.number,
        one.status == other.status,
        one.event == other.event,
        one.source@ == other.source@,
        one.target@ == other.target@,
    ensures
        filter_decision(one, window_start, window_end, develop) == filter_decision(
            other,
            window_start,
            window_end,
            develop,
        ),
{
}

/// The reading stops exactly at an entry that was created and finished
/// before the window's end, whatever else the entry holds.
pub proof fn lemma_break_iff_before_window(
    item: DroneBuildListItem,
    window_start: TimePoint,
    window_end: TimePoint,
    develop: bool,
)
    ensures
        filter_decision(item, window_start, window_end, develop) == FilterState::Break <==> {
            &&& time_of(item.timestamps.finished).nanos < window_end.nanos
            &&& time_of(item.timestamps.created).nanos < window_end.nanos
        },
{
}

/// An entry that finished after the window's start is passed over, unless
/// it stops the reading.
pub proof fn lemma_after_window_continues(
    item: DroneBuildListItem,
    window_start: TimePoint,
    window_end: TimePoint,
    develop: bool,
)
    requires
        window_end.nanos <= window_start.nanos,
        time_of(item.timestamps.finished).nanos > window_start.nanos,
    ensures
        filter_decision(item, window_start, window_end, develop) == FilterState::Continue,
{
}

/// An entry is admitted exactly when it was created at or after the
/// window's end, finished at or before its start, has the event that the
/// mode asks for, and does not run any more.
pub proof fn lemma_admitted_iff_inside(
    item: DroneBuildListItem,
    window_start: TimePoint,
    window_end: TimePoint,
    develop: bool,
)
    ensures
        filter_decision(item, window_start, window_end, develop) == FilterState::Admit(
            item.number,
        ) <==> {
            &&& window_end.nanos <= time_of(item.timestamps.created).nanos
            &&& time_of(item.timestamps.finished).nanos <= window_start.nanos
            &&& mode_admits(item, develop)
            &&& item.status != DroneStatus::Running
        },
{
}

} // verus!
