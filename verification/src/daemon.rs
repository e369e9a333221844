//! The daemon's policies around scanning: which hotplug events trigger a
//! rescan, and how a rescan retries until the DDC/CI monitor count settles.

use vstd::prelude::*;

verus! {

/// Why monitors are rescanned.
#[derive(Debug, Clone, Copy, PartialEq, Eq, Structural)]
pub enum RescanReason {
    Startup,
    UdevDrm,
}

/// Whether a udev event of the DRM subsystem with this action (`None`: no
/// action) triggers a rescan: `add`, `remove` and `change` do.
pub open spec fn is_hotplug_action_spec(action: Option<Seq<char>>) -> bool {
    match action {
        Some(a) => a == "add"@ || a == "remove"@ || a == "change"@,
        None => false,
    }
}

/// Tells whether a udev action triggers a rescan.
pub fn is_hotplug_action(action: Option<&str>) -> (b: bool)
    ensures
        b == is_hotplug_action_spec(match action { Some(a) => Some(a@), None => None }),
{
    match action {
        Some(a) => {
            let s = String::from_str(a);
            s == String::from_str("add") || s == String::from_str("remove") || s == String::from_str("change")
        },
        None => false,
    }
}

/// How many scans a rescan makes at most.
pub const MAX_SCAN_ATTEMPTS: u32 = 6;

/// What follows a scan of a rescan: stop, or scan again after `delay_secs`
/// seconds, remembering `last_found` DDC/CI monitors.
#[derive(Debug, Clone, Copy, PartialEq, Eq, Structural)]
pub enum RescanDecision {
    Stop,
    Retry { delay_secs: u64, last_found: usize },
}

/// The wait after the scan numbered `attempt` (from 0) found nothing:
/// 2^min(attempt + 1, 4) seconds.
pub open spec fn backoff_secs(attempt: u32) -> u64 {
    if attempt + 1 >= 4 { 16 } else if attempt + 1 == 3 { 8 } else if attempt + 1 == 2 { 4 } else { 2 }
}

/// After the scan numbered `attempt` (from 0) found `found` DDC/CI monitors,
/// when earlier scans found at most `last_found`: the last allowed scan
/// stops; more monitors than before means scanning again in 2 seconds for
/// more; none means retrying with exponential backoff; the same count or
/// fewer, but some, means the count has settled.
pub open spec fn rescan_step_spec(attempt: u32, last_found: usize, found: usize) -> RescanDecision {
    if attempt + 1 == MAX_SCAN_ATTEMPTS {
        RescanDecision::Stop
    } else if found > last_found {
        RescanDecision::Retry { delay_secs: 2, last_found: found }
    } else if found == 0 {
        RescanDecision::Retry { delay_secs: backoff_secs(attempt), last_found }
    } else {
        RescanDecision::Stop
    }
}

/// Decides what follows a scan of a rescan.
pub fn rescan_step(attempt: u32, last_found: usize, found: usize) -> (d: RescanDecision)
    requires
        attempt < MAX_SCAN_ATTEMPTS,
    ensures
        d == rescan_step_spec(attempt, last_found, found),
{
    if attempt + 1 == MAX_SCAN_ATTEMPTS {
        RescanDecision::Stop
    } else if found > last_found {
        RescanDecision::Retry { delay_secs: 2, last_found: found }
    } else if found == 0 {
        let k = attempt + 1;
        let delay: u64 = if k >= 4 { 16 } else if k == 3 { 8 } else if k == 2 { 4 } else { 2 };
        RescanDecision::Retry { delay_secs: delay, last_found }
    } else {
        RescanDecision::Stop
    }
}

/// When no DDC/CI monitor ever shows up, a rescan retries five times, after
/// 2, 4, 8, 16 and 16 seconds, and stops at its sixth scan.
pub proof fn lemma_backoff_when_nothing_found()
    ensures
        rescan_step_spec(0, 0, 0) == (RescanDecision::Retry { delay_secs: 2, last_found: 0 }),
        rescan_step_spec(1, 0, 0) == (RescanDecision::Retry { delay_secs: 4, last_found: 0 }),
        rescan_step_spec(2, 0, 0) == (RescanDecision::Retry { delay_secs: 8, last_found: 0 }),
        rescan_step_spec(3, 0, 0) == (RescanDecision::Retry { delay_secs: 16, last_found: 0 }),
        rescan_step_spec(4, 0, 0) == (RescanDecision::Retry { delay_secs: 16, last_found: 0 }),
        rescan_step_spec(5, 0, 0) == RescanDecision::Stop,
{
}

/// A rescan always ends: every scan but the last of at most
/// [`MAX_SCAN_ATTEMPTS`] may ask for another, and the last stops; every
/// wait lasts between 2 and 16 seconds.
pub proof fn lemma_rescan_bounded(attempt: u32, last_found: usize, found: usize)
    requires
        attempt < MAX_SCAN_ATTEMPTS,
    ensures
        attempt + 1 == MAX_SCAN_ATTEMPTS ==> rescan_step_spec(attempt, last_found, found) == RescanDecision::Stop,
        rescan_step_spec(attempt, last_found, found) matches RescanDecision::Retry { delay_secs, .. }
            ==> 2 <= delay_secs <= 16,
{
}

/// How long the watcher waits for quiet after a hotplug event before it
/// triggers one rescan, in milliseconds.
pub const DEBOUNCE_WINDOW_MS: u64 = 1500;

/// The state of the hotplug debouncer: waiting for a first event, or
/// collecting further events until [`DEBOUNCE_WINDOW_MS`] pass without one.
#[derive(Debug, Clone, Copy, PartialEq, Eq, Structural)]
pub enum DebounceState {
    Idle,
    Collecting,
}

/// What the debouncer observed: a hotplug event, a full window without one,
/// or the end of the event stream.
#[derive(Debug, Clone, Copy, PartialEq, Eq, Structural)]
pub enum DebounceEvent {
    Event,
    Quiet,
    Closed,
}

/// What the debouncer does next: its next state (`None`: it stops), and
/// whether it triggers a rescan now.
#[derive(Debug, Clone, Copy, PartialEq, Eq, Structural)]
pub struct DebounceAction {
    pub next: Option<DebounceState>,
    pub trigger: bool,
}

/// The debouncer's step: an event starts or prolongs a collection; when a
/// collection ends -- a quiet window, or the end of the stream -- one rescan
/// is triggered; the end of the stream while idle stops it.
pub open spec fn debounce_step_spec(state: DebounceState, event: DebounceEvent) -> DebounceAction {
    match (state, event) {
        (_, DebounceEvent::Event) => DebounceAction { next: Some(DebounceState::Collecting), trigger: false },
        (DebounceState::Collecting, _) => DebounceAction { next: Some(DebounceState::Idle), trigger: true },
        (DebounceState::Idle, DebounceEvent::Quiet) => DebounceAction { next: Some(DebounceState::Idle), trigger: false },
        (DebounceState::Idle, DebounceEvent::Closed) => DebounceAction { next: None, trigger: false },
    }
}

/// Decides the debouncer's next step.
pub fn debounce_step(state: DebounceState, event: DebounceEvent) -> (a: DebounceAction)
    ensures
        a == debounce_step_spec(state, event),
{
    match (state, event) {
        (_, DebounceEvent::Event) => DebounceAction { next: Some(DebounceState::Collecting), trigger: false },
        (DebounceState::Collecting, _) => DebounceAction { next: Some(DebounceState::Idle), trigger: true },
        (DebounceState::Idle, DebounceEvent::Quiet) => DebounceAction { next: Some(DebounceState::Idle), trigger: false },
        (DebounceState::Idle, DebounceEvent::Closed) => DebounceAction { next: None, trigger: false },
    }
}

} // verus!
