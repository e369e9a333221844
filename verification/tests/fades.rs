use ddcstuff::fade::{fade_plan, FadeController};
use ddcstuff::monitor::MonitorId;

#[test]
fn fading_up() {
    let p = fade_plan(0, 100, 400, 4);
    assert_eq!(p.step_duration_ms, 100);
    assert_eq!(p.targets, vec![25, 50, 75, 100]);
}

#[test]
fn fading_down_rounds_toward_zero() {
    let p = fade_plan(100, 0, 10, 3);
    assert_eq!(p.step_duration_ms, 3);
    assert_eq!(p.targets, vec![67, 34, 0]);
}

#[test]
fn nothing_to_fade() {
    assert!(fade_plan(40, 40, 10, 5).targets.is_empty());
    assert!(fade_plan(10, 90, 10, 0).targets.is_empty());
}

#[test]
fn fade_steps_stay_between_ends() {
    for (from, to) in [(1u8, 100u8), (100, 1), (37, 64), (64, 37)] {
        for steps in 1..=255u8 {
            let p = fade_plan(from, to, 400, steps);
            assert_eq!(p.targets.len(), steps as usize);
            assert_eq!(*p.targets.last().unwrap(), to);
            let (lo, hi) = if from <= to { (from, to) } else { (to, from) };
            assert!(p.targets.iter().all(|t| lo <= *t && *t <= hi));
            let reference: Vec<u8> = (1..=steps)
                .map(|i| {
                    if i == steps {
                        to
                    } else {
                        (from as i16 + (to as i16 - from as i16) * i as i16 / steps as i16).clamp(0, 100) as u8
                    }
                })
                .collect();
            assert_eq!(p.targets, reference);
        }
    }
}

#[test]
fn one_fade_per_monitor() {
    let mut c: FadeController<u32> = FadeController::new();
    assert_eq!(c.cancel(&MonitorId("a".to_string())), None);
    c.start_fade(MonitorId("a".to_string()), 1);
    c.start_fade(MonitorId("b".to_string()), 2);
    assert_eq!(c.cancel(&MonitorId("a".to_string())), Some(1));
    assert_eq!(c.cancel(&MonitorId("a".to_string())), None);
    c.start_fade(MonitorId("a".to_string()), 3);
    assert_eq!(c.cancel(&MonitorId("b".to_string())), Some(2));
    assert_eq!(c.cancel(&MonitorId("a".to_string())), Some(3));
}
