use ddcstuff::client::{
    build_request, connection_failure, is_waybar, render_response, render_waybar, resolve_target, BrightnessArg,
    BrightnessArgError, Cmd, ConnectionFailure,
};
use ddcstuff::monitor::{MonitorId, MonitorInfo, MonitorKind, MonitorStatus};
use ddcstuff::protocol::{BrightnessOp, Request, Response, Target};

#[test]
fn brightness_arguments() {
    assert_eq!(BrightnessArg::parse("80"), Ok(BrightnessArg::Absolute(80)));
    assert_eq!(BrightnessArg::parse("+10"), Ok(BrightnessArg::Increase(10)));
    assert_eq!(BrightnessArg::parse("-10"), Ok(BrightnessArg::Decrease(10)));
    assert_eq!(BrightnessArg::parse("++5"), Ok(BrightnessArg::Increase(5)));
    assert_eq!(BrightnessArg::parse("255"), Ok(BrightnessArg::Absolute(255)));
    assert_eq!(BrightnessArg::parse("+-5"), Err(BrightnessArgError::InvalidDelta));
    assert_eq!(BrightnessArg::parse("-"), Err(BrightnessArgError::InvalidDelta));
    assert_eq!(BrightnessArg::parse("+256"), Err(BrightnessArgError::InvalidDelta));
    assert_eq!(BrightnessArg::parse("256"), Err(BrightnessArgError::InvalidValue));
    assert_eq!(BrightnessArg::parse("abc"), Err(BrightnessArgError::InvalidValue));
    assert_eq!(BrightnessArg::parse(""), Err(BrightnessArgError::InvalidValue));
}

#[test]
fn brightness_argument_from_str() {
    assert_eq!("+7".parse::<BrightnessArg>(), Ok(BrightnessArg::Increase(7)));
    assert_eq!("-x".parse::<BrightnessArg>(), Err("invalid brightness delta".to_string()));
    assert_eq!("x".parse::<BrightnessArg>(), Err("invalid brightness value (0-100)".to_string()));
}

#[test]
fn formatted_arguments_read_back() {
    for n in 0..=255u8 {
        assert_eq!(BrightnessArg::parse(&n.to_string()), Ok(BrightnessArg::Absolute(n)));
        assert_eq!(BrightnessArg::parse(&format!("+{n}")), Ok(BrightnessArg::Increase(n)));
        assert_eq!(BrightnessArg::parse(&format!("-{n}")), Ok(BrightnessArg::Decrease(n)));
    }
}

#[test]
fn argument_to_op() {
    assert_eq!(BrightnessOp::from(BrightnessArg::Absolute(3)), BrightnessOp::SetTo { percent: 3 });
    assert_eq!(BrightnessOp::from(BrightnessArg::Increase(4)), BrightnessOp::Increase { percent: 4 });
    assert_eq!(BrightnessOp::from(BrightnessArg::Decrease(5)), BrightnessOp::Decrease { percent: 5 });
}

#[test]
fn monitor_option_to_target() {
    assert!(matches!(resolve_target(None), Target::All));
    assert!(matches!(resolve_target(Some("0".to_string())), Target::ByIndex { index: 0 }));
    assert!(matches!(resolve_target(Some("+2".to_string())), Target::ByIndex { index: 2 }));
    match resolve_target(Some("ddc-BNQ-BenQ_PD2700U-30cb5d40".to_string())) {
        Target::ById { id } => assert_eq!(id.as_str(), "ddc-BNQ-BenQ_PD2700U-30cb5d40"),
        other => panic!("{other:?}"),
    }
    match resolve_target(Some("-1".to_string())) {
        Target::ById { id } => assert_eq!(id.as_str(), "-1"),
        other => panic!("{other:?}"),
    }
}

#[test]
fn commands_to_requests() {
    match build_request(Cmd::SetBrightness { value: BrightnessArg::Increase(10), monitor: None, fade: true }) {
        Request::SetBrightness { target: Target::All, op: BrightnessOp::Increase { percent: 10 }, fade: true } => {}
        other => panic!("{other:?}"),
    }
    match build_request(Cmd::Get { monitor: Some("1".to_string()) }) {
        Request::GetBrightness { target: Target::ByIndex { index: 1 } } => {}
        other => panic!("{other:?}"),
    }
    assert!(matches!(build_request(Cmd::List), Request::ListMonitors));
    assert!(matches!(build_request(Cmd::Waybar), Request::GetBrightness { target: Target::All }));
    assert!(matches!(build_request(Cmd::Rescan), Request::Rescan));
    assert!(matches!(build_request(Cmd::Ping), Request::Ping));
    assert!(is_waybar(&Cmd::Waybar));
    assert!(!is_waybar(&Cmd::Ping));
}

fn status(id: &str, name: &str, p: u8) -> MonitorStatus {
    MonitorStatus { id: MonitorId(id.to_string()), name: name.to_string(), brightness_percent: p }
}

#[test]
fn rendering_responses() {
    let out = render_response(&Response::Success);
    assert!(out.stdout.is_empty() && out.stderr.is_empty() && out.exit_code.is_none());

    let out = render_response(&Response::Pong { version: "0.1.0".to_string() });
    assert_eq!(out.stdout, vec!["ddcd 0.1.0 is running".to_string()]);

    let out = render_response(&Response::Error { message: "monitor not found: x".to_string() });
    assert_eq!(out.stderr, vec!["error: monitor not found: x".to_string()]);
    assert_eq!(out.exit_code, Some(1));

    let out = render_response(&Response::Brightness { monitors: vec![status("ddc-a", "DEL U2722D", 40)] });
    assert_eq!(out.stdout, vec!["DEL U2722D: 40%  (ddc-a)".to_string()]);

    let out = render_response(&Response::Monitors { list: vec![] });
    assert_eq!(out.stdout, vec!["no monitors found".to_string()]);
}

#[test]
fn rendering_monitor_list() {
    let list = vec![
        MonitorInfo {
            id: MonitorId("ddc-DEL-U2722D-0000fc42".to_string()),
            name: "DEL U2722D".to_string(),
            kind: MonitorKind::Ddc,
            brightness_percent: 7,
        },
        MonitorInfo {
            id: MonitorId("backlight-intel_backlight".to_string()),
            name: "intel_backlight".to_string(),
            kind: MonitorKind::Backlight,
            brightness_percent: 100,
        },
    ];
    let out = render_response(&Response::Monitors { list });
    assert_eq!(out.stdout.len(), 4);
    assert_eq!(out.stdout[0], format!("{:<4} {:<44} {:<10} {:>6}", "idx", "id", "kind", "bri"));
    assert_eq!(out.stdout[1], "-".repeat(68));
    assert_eq!(out.stdout[2], "0    ddc-DEL-U2722D-0000fc42 ddc            7%");
    assert_eq!(out.stdout[3], "1    backlight-intel_backlight backlight    100%");
}

#[test]
fn waybar_rendering_of_responses() {
    let w = render_waybar(&Response::Error { message: "boom".to_string() });
    assert_eq!((w.text.as_str(), w.tooltip.as_str(), w.class.as_str(), w.percentage), ("N/A", "boom", "brightness-error", 0));
    let w = render_waybar(&Response::Success);
    assert_eq!(w.tooltip, "unexpected response");
    let w = render_waybar(&Response::Brightness { monitors: vec![status("a", "A", 80)] });
    assert_eq!((w.text.as_str(), w.class.as_str(), w.percentage), ("80%", "brightness", 80));
}

#[test]
fn connection_failures() {
    match connection_failure(true, "connect to /run/ddcd.sock", "/run/ddcd.sock") {
        ConnectionFailure::Waybar(w) => {
            assert_eq!(w.text, "N/A");
            assert_eq!(w.tooltip, "ddcd not running: connect to /run/ddcd.sock");
            assert_eq!(w.class, "brightness-error");
            assert_eq!(w.percentage, 0);
        }
        other => panic!("{other:?}"),
    }
    match connection_failure(false, "No such file or directory (os error 2)", "/run/ddcd.sock") {
        ConnectionFailure::Report(o) => {
            assert_eq!(
                o.stderr,
                vec![
                    "error: could not connect to ddcd at /run/ddcd.sock".to_string(),
                    "  Is ddcd running? Start it with: ddcd".to_string()
                ]
            );
            assert_eq!(o.exit_code, Some(1));
        }
        other => panic!("{other:?}"),
    }
    match connection_failure(false, "connect to /run/ddcd.sock", "/run/ddcd.sock") {
        ConnectionFailure::Report(o) => assert_eq!(o.stderr, vec!["error: connect to /run/ddcd.sock".to_string()]),
        other => panic!("{other:?}"),
    }
}
