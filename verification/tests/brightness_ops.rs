use ddcstuff::monitor_manager::apply_op;
use ddcstuff::protocol::BrightnessOp;

#[test]
fn set_is_clamped_to_one_through_hundred() {
    assert_eq!(apply_op(&BrightnessOp::SetTo { percent: 80 }, 20), 80);
    assert_eq!(apply_op(&BrightnessOp::SetTo { percent: 0 }, 20), 1);
    assert_eq!(apply_op(&BrightnessOp::SetTo { percent: 150 }, 20), 100);
}

#[test]
fn increase_and_decrease_saturate_then_clamp() {
    assert_eq!(apply_op(&BrightnessOp::Increase { percent: 10 }, 50), 60);
    assert_eq!(apply_op(&BrightnessOp::Increase { percent: 250 }, 10), 100);
    assert_eq!(apply_op(&BrightnessOp::Increase { percent: 10 }, 95), 100);
    assert_eq!(apply_op(&BrightnessOp::Decrease { percent: 10 }, 50), 40);
    assert_eq!(apply_op(&BrightnessOp::Decrease { percent: 10 }, 5), 1);
    assert_eq!(apply_op(&BrightnessOp::Decrease { percent: 0 }, 0), 1);
}

#[test]
fn never_completely_dark() {
    for current in 0..=255u8 {
        for p in [0u8, 1, 50, 100, 255] {
            for op in [BrightnessOp::SetTo { percent: p }, BrightnessOp::Increase { percent: p }, BrightnessOp::Decrease { percent: p }] {
                let r = apply_op(&op, current);
                assert!((1..=100).contains(&r));
            }
        }
    }
}

#[test]
fn increase_then_decrease_comes_back() {
    let up = apply_op(&BrightnessOp::Increase { percent: 10 }, 40);
    assert_eq!(apply_op(&BrightnessOp::Decrease { percent: 10 }, up), 40);
    let set = apply_op(&BrightnessOp::SetTo { percent: 70 }, 3);
    assert_eq!(apply_op(&BrightnessOp::SetTo { percent: 70 }, set), set);
}
