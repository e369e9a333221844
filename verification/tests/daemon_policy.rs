use ddcstuff::daemon::{
    debounce_step, is_hotplug_action, rescan_step, DebounceAction, DebounceEvent, DebounceState, RescanDecision,
    DEBOUNCE_WINDOW_MS, MAX_SCAN_ATTEMPTS,
};

#[test]
fn hotplug_actions() {
    assert!(is_hotplug_action(Some("add")));
    assert!(is_hotplug_action(Some("remove")));
    assert!(is_hotplug_action(Some("change")));
    assert!(!is_hotplug_action(Some("bind")));
    assert!(!is_hotplug_action(Some("Add")));
    assert!(!is_hotplug_action(None));
}

#[test]
fn backoff_when_nothing_is_found() {
    let mut delays = Vec::new();
    let mut last = 0usize;
    for attempt in 0..MAX_SCAN_ATTEMPTS {
        match rescan_step(attempt, last, 0) {
            RescanDecision::Retry { delay_secs, last_found } => {
                delays.push(delay_secs);
                last = last_found;
            }
            RescanDecision::Stop => break,
        }
    }
    assert_eq!(delays, vec![2, 4, 8, 16, 16]);
}

#[test]
fn rescan_settles() {
    assert_eq!(rescan_step(0, 0, 1), RescanDecision::Retry { delay_secs: 2, last_found: 1 });
    assert_eq!(rescan_step(1, 1, 2), RescanDecision::Retry { delay_secs: 2, last_found: 2 });
    assert_eq!(rescan_step(2, 2, 2), RescanDecision::Stop);
    assert_eq!(rescan_step(2, 2, 1), RescanDecision::Stop);
    assert_eq!(rescan_step(2, 2, 0), RescanDecision::Retry { delay_secs: 8, last_found: 2 });
    assert_eq!(rescan_step(5, 0, 3), RescanDecision::Stop);
}

#[test]
fn debounce_steps() {
    assert_eq!(DEBOUNCE_WINDOW_MS, 1500);
    assert_eq!(debounce_step(DebounceState::Idle, DebounceEvent::Event), DebounceAction { next: Some(DebounceState::Collecting), trigger: false });
    assert_eq!(debounce_step(DebounceState::Idle, DebounceEvent::Quiet), DebounceAction { next: Some(DebounceState::Idle), trigger: false });
    assert_eq!(debounce_step(DebounceState::Idle, DebounceEvent::Closed), DebounceAction { next: None, trigger: false });
    assert_eq!(debounce_step(DebounceState::Collecting, DebounceEvent::Event), DebounceAction { next: Some(DebounceState::Collecting), trigger: false });
    assert_eq!(debounce_step(DebounceState::Collecting, DebounceEvent::Quiet), DebounceAction { next: Some(DebounceState::Idle), trigger: true });
    assert_eq!(debounce_step(DebounceState::Collecting, DebounceEvent::Closed), DebounceAction { next: Some(DebounceState::Idle), trigger: true });
}

#[test]
fn a_burst_of_events_triggers_one_rescan() {
    let events = [DebounceEvent::Event, DebounceEvent::Event, DebounceEvent::Event, DebounceEvent::Quiet, DebounceEvent::Closed];
    let mut state = Some(DebounceState::Idle);
    let mut triggers = 0;
    for e in events {
        let s = state.expect("debouncer still running");
        let a = debounce_step(s, e);
        if a.trigger {
            triggers += 1;
        }
        state = a.next;
    }
    assert_eq!(triggers, 1);
    assert_eq!(state, None);
}
