use ddcstuff::backlight::Backlight;
use ddcstuff::config::Config;
use ddcstuff::ddc_monitor::{DisplayIdentity, VcpReading};
use ddcstuff::monitor::{MonitorId, MonitorStatus};
use ddcstuff::monitor_manager::{run_scan, ManagerError, MonitorManager};
use ddcstuff::protocol::{BrightnessOp, Request, Response, Target};
use ddcstuff::server::{apply_response, dispatch, rescan_response, status_response, RequestPlan};

fn manager(config: Config) -> MonitorManager {
    let probes = vec![(
        DisplayIdentity {
            id: "i2c-4".to_string(),
            manufacturer_id: Some("DEL".to_string()),
            model_name: Some("U2722D".to_string()),
            serial_number: Some("ABC".to_string()),
        },
        Some(VcpReading { mh: 0, ml: 100, sh: 0, sl: 40 }),
    )];
    let mut bl = Backlight::from_path("/sys/class/backlight/intel_backlight", Some("100".to_string())).unwrap();
    bl.load_initial_brightness(Some("20".to_string()));
    let mut m = MonitorManager::new(config);
    m.apply_scan_results(run_scan(probes), Some(bl));
    m
}

#[test]
fn simple_requests() {
    let cfg = Config::default();
    let m = manager(cfg.clone());
    match dispatch(&m, &cfg, Request::Ping, 50, "0.1.0") {
        RequestPlan::Reply(Response::Pong { version }) => assert_eq!(version, "0.1.0"),
        other => panic!("{other:?}"),
    }
    assert!(matches!(dispatch(&m, &cfg, Request::Rescan, 50, "v"), RequestPlan::Rescan));
    match dispatch(&m, &cfg, Request::ListMonitors, 50, "v") {
        RequestPlan::Reply(Response::Monitors { list }) => assert_eq!(list.len(), 2),
        other => panic!("{other:?}"),
    }
    match dispatch(&m, &cfg, Request::GetBrightness { target: Target::ByIndex { index: 1 } }, 50, "v") {
        RequestPlan::Status(Target::ByIndex { index: 1 }) => {}
        other => panic!("{other:?}"),
    }
}

#[test]
fn setting_all_is_coalesced() {
    let cfg = Config::default();
    let m = manager(cfg.clone());
    let req = Request::SetBrightness { target: Target::All, op: BrightnessOp::Increase { percent: 5 }, fade: false };
    assert!(matches!(dispatch(&m, &cfg, req, 50, "v"), RequestPlan::SetAll(55)));
    let req = Request::SetBrightness { target: Target::All, op: BrightnessOp::Decrease { percent: 90 }, fade: false };
    assert!(matches!(dispatch(&m, &cfg, req, 50, "v"), RequestPlan::SetAll(1)));
}

#[test]
fn setting_one_monitor() {
    let cfg = Config::default();
    let m = manager(cfg.clone());
    let req = Request::SetBrightness {
        target: Target::ById { id: MonitorId("whatever".to_string()) },
        op: BrightnessOp::SetTo { percent: 5 },
        fade: false,
    };
    match dispatch(&m, &cfg, req, 50, "v") {
        RequestPlan::ApplyOne { id, op } => {
            assert_eq!(id.as_str(), "whatever");
            assert_eq!(op, BrightnessOp::SetTo { percent: 5 });
        }
        other => panic!("{other:?}"),
    }
    let req = Request::SetBrightness { target: Target::ByIndex { index: 1 }, op: BrightnessOp::SetTo { percent: 5 }, fade: false };
    match dispatch(&m, &cfg, req, 50, "v") {
        RequestPlan::ApplyOne { id, .. } => assert_eq!(id.as_str(), "backlight-intel_backlight"),
        other => panic!("{other:?}"),
    }
    let req = Request::SetBrightness { target: Target::ByIndex { index: 3 }, op: BrightnessOp::SetTo { percent: 5 }, fade: false };
    match dispatch(&m, &cfg, req, 50, "v") {
        RequestPlan::Reply(Response::Error { message }) => assert_eq!(message, "monitor index 3 out of range"),
        other => panic!("{other:?}"),
    }
}

#[test]
fn fading() {
    let mut cfg = Config::default();
    cfg.fade.enabled = true;
    cfg.fade.duration_ms = 400;
    cfg.fade.steps = 20;
    let m = manager(cfg.clone());
    let req = Request::SetBrightness { target: Target::All, op: BrightnessOp::Increase { percent: 10 }, fade: false };
    match dispatch(&m, &cfg, req, 50, "v") {
        RequestPlan::Fade(fades) => {
            assert_eq!(fades.len(), 2);
            assert_eq!((fades[0].from, fades[0].to, fades[0].duration_ms, fades[0].steps), (40, 50, 400, 20));
            assert_eq!(fades[1].id.as_str(), "backlight-intel_backlight");
            assert_eq!((fades[1].from, fades[1].to), (20, 30));
        }
        other => panic!("{other:?}"),
    }
    let cfg2 = Config::default();
    let req = Request::SetBrightness {
        target: Target::ById { id: MonitorId("none".to_string()) },
        op: BrightnessOp::SetTo { percent: 10 },
        fade: true,
    };
    match dispatch(&m, &cfg2, req, 50, "v") {
        RequestPlan::Reply(Response::Error { message }) => assert_eq!(message, "monitor not found: none"),
        other => panic!("{other:?}"),
    }
}

#[test]
fn responses() {
    assert!(matches!(rescan_response(), Response::Success));
    let s = MonitorStatus { id: MonitorId("a".to_string()), name: "A".to_string(), brightness_percent: 3 };
    match apply_response(Ok(s)) {
        Response::Brightness { monitors } => assert_eq!(monitors.len(), 1),
        other => panic!("{other:?}"),
    }
    match apply_response(Err(ManagerError::NotFound(MonitorId("z".to_string())))) {
        Response::Error { message } => assert_eq!(message, "monitor not found: z"),
        other => panic!("{other:?}"),
    }
    match status_response(Ok(vec![])) {
        Response::Brightness { monitors } => assert!(monitors.is_empty()),
        other => panic!("{other:?}"),
    }
    match status_response(Err(ManagerError::IndexOutOfRange(4))) {
        Response::Error { message } => assert_eq!(message, "monitor index 4 out of range"),
        other => panic!("{other:?}"),
    }
}
