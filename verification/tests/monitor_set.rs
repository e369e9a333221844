use ddcstuff::backlight::Backlight;
use ddcstuff::config::Config;
use ddcstuff::ddc_monitor::{DisplayIdentity, VcpReading};
use ddcstuff::monitor::MonitorId;
use ddcstuff::monitor_manager::{run_scan, ApplyStep, DeviceWrite, ManagerError, MonitorManager, Slot, StatusStep};
use ddcstuff::protocol::{BrightnessOp, Target};

fn ident(id: &str, mfr: &str, model: &str, serial: &str) -> DisplayIdentity {
    DisplayIdentity {
        id: id.to_string(),
        manufacturer_id: Some(mfr.to_string()),
        model_name: Some(model.to_string()),
        serial_number: Some(serial.to_string()),
    }
}

fn reading(current: u8) -> Option<VcpReading> {
    Some(VcpReading { mh: 0, ml: 100, sh: 0, sl: current })
}

fn manager() -> MonitorManager {
    let probes = vec![
        (ident("i2c-4", "DEL", "U2722D", "ABC"), reading(40)),
        (ident("i2c-5", "XXX", "Ghost", ""), None),
        (ident("i2c-6", "BNQ", "PD2700U", "XYZ"), reading(70)),
    ];
    let monitors = run_scan(probes);
    assert_eq!(monitors.len(), 2);
    let mut bl = Backlight::from_path("/sys/class/backlight/intel_backlight", Some("1000".to_string())).unwrap();
    bl.load_initial_brightness(Some("300".to_string()));
    let mut m = MonitorManager::new(Config::default());
    assert_eq!(m.apply_scan_results(monitors, Some(bl)), 2);
    m
}

fn ids(m: &MonitorManager) -> Vec<String> {
    m.all_ids().into_iter().map(|i| i.0).collect()
}

#[test]
fn ids_and_list_agree() {
    let m = manager();
    let all = ids(&m);
    assert_eq!(all.len(), 3);
    assert!(all[0].starts_with("ddc-DEL-U2722D-"));
    assert!(all[1].starts_with("ddc-BNQ-PD2700U-"));
    assert_eq!(all[2], "backlight-intel_backlight");
    let list = m.list_monitors();
    let listed: Vec<String> = list.iter().map(|i| i.id.0.clone()).collect();
    assert_eq!(listed, all);
    assert_eq!(list[0].brightness_percent, 40);
    assert_eq!(list[2].brightness_percent, 30);
    assert_eq!(m.config().fade.steps, 20);
}

#[test]
fn resolving_targets() {
    let m = manager();
    let all = ids(&m);
    assert_eq!(m.resolve_target(&Target::All).unwrap().len(), 3);
    let one = m.resolve_target(&Target::ByIndex { index: 2 }).unwrap();
    assert_eq!(one[0].as_str(), all[2]);
    match m.resolve_target(&Target::ByIndex { index: 5 }) {
        Err(e) => assert_eq!(e.message(), "monitor index 5 out of range"),
        Ok(_) => panic!("out of range"),
    }
    match m.resolve_target(&Target::ById { id: MonitorId("nope".to_string()) }) {
        Err(e) => assert_eq!(e.message(), "monitor not found: nope"),
        Ok(_) => panic!("missing"),
    }
    let found = m.resolve_target(&Target::ById { id: MonitorId(all[1].clone()) }).unwrap();
    assert_eq!(found[0].as_str(), all[1]);
}

#[test]
fn direct_writes() {
    let mut m = manager();
    let all = ids(&m);
    let w = m.set_brightness_direct(&MonitorId(all[1].clone()), 55).unwrap();
    assert_eq!(w.slot, Slot::Ddc(1));
    assert!(m.write_fits(&w));
    match m.device_write(&w) {
        DeviceWrite::Ddc { index, value } => assert_eq!((index, value), (1, 55)),
        other => panic!("{other:?}"),
    }
    assert!(m.complete_write(&w, true).is_ok());
    assert_eq!(m.list_monitors()[1].brightness_percent, 55);
    match m.get_status(&Target::ById { id: MonitorId(all[1].clone()) }) {
        StatusStep::Done(Ok(v)) => assert_eq!(v[0].brightness_percent, 55),
        other => panic!("{other:?}"),
    }

    let w = m.set_brightness_direct(&MonitorId(all[2].clone()), 80).unwrap();
    assert_eq!(w.slot, Slot::Backlight);
    match m.device_write(&w) {
        DeviceWrite::Sysfs(f) => {
            assert_eq!(f.file, "/sys/class/backlight/intel_backlight/brightness");
            assert_eq!(f.contents, "800");
        }
        other => panic!("{other:?}"),
    }
    match m.complete_write(&w, false) {
        Err(ManagerError::Backlight(_)) => {}
        other => panic!("{other:?}"),
    }
    assert_eq!(m.list_monitors()[2].brightness_percent, 30);
    match m.complete_write(&ddcstuff::monitor_manager::PendingWrite { slot: Slot::Ddc(0), percent: 9 }, false) {
        Err(e) => assert_eq!(e.message(), "DDC set brightness"),
        Ok(()) => panic!("failure"),
    }
    assert!(m.set_brightness_direct(&MonitorId("nope".to_string()), 5).is_err());
}

#[test]
fn statuses() {
    let mut m = manager();
    let all = ids(&m);
    match m.get_status(&Target::All) {
        StatusStep::NeedBacklightReading(v) => {
            assert_eq!(v.len(), 2);
            assert_eq!(v[0].brightness_percent, 40);
            assert_eq!(v[1].name, "BNQ PD2700U");
            let done = m.finish_status(v, Some("610\n".to_string())).unwrap();
            assert_eq!(done.len(), 3);
            assert_eq!(done[2].id.as_str(), all[2]);
            assert_eq!(done[2].name, "intel_backlight");
            assert_eq!(done[2].brightness_percent, 61);
        }
        other => panic!("{other:?}"),
    }
    assert_eq!(m.list_monitors()[2].brightness_percent, 61);
    match m.get_status(&Target::ById { id: MonitorId(all[0].clone()) }) {
        StatusStep::Done(Ok(v)) => assert_eq!((v.len(), v[0].brightness_percent), (1, 40)),
        other => panic!("{other:?}"),
    }
    match m.get_status(&Target::ByIndex { index: 2 }) {
        StatusStep::NeedBacklightReading(v) => {
            assert!(v.is_empty());
            match m.finish_status(v, None) {
                Err(e) => assert_eq!(e.message(), "read brightness"),
                Ok(_) => panic!("failed read"),
            }
        }
        other => panic!("{other:?}"),
    }
    match m.get_status(&Target::ByIndex { index: 9 }) {
        StatusStep::Done(Err(ManagerError::IndexOutOfRange(9))) => {}
        other => panic!("{other:?}"),
    }
    match m.get_status(&Target::ById { id: MonitorId("x".to_string()) }) {
        StatusStep::Done(Err(ManagerError::NotFound(id))) => assert_eq!(id.as_str(), "x"),
        other => panic!("{other:?}"),
    }
}

#[test]
fn all_statuses_without_backlight() {
    let mut m = manager();
    let monitors = run_scan(vec![(ident("i2c-4", "DEL", "U2722D", "ABC"), reading(12))]);
    m.apply_scan_results(monitors, None);
    match m.get_status(&Target::All) {
        StatusStep::Done(Ok(v)) => assert_eq!((v.len(), v[0].brightness_percent), (1, 12)),
        other => panic!("{other:?}"),
    }
}

#[test]
fn applying_adjustments() {
    let mut m = manager();
    let all = ids(&m);
    let id0 = MonitorId(all[0].clone());
    match m.apply_to_monitor(&id0, &BrightnessOp::Increase { percent: 10 }) {
        ApplyStep::Write(w) => {
            assert_eq!(w.percent, 50);
            let s = m.finish_apply(&id0, &w, true).unwrap();
            assert_eq!((s.name.as_str(), s.brightness_percent), ("DEL U2722D", 50));
        }
        other => panic!("{other:?}"),
    }
    let id2 = MonitorId(all[2].clone());
    match m.apply_to_monitor(&id2, &BrightnessOp::Decrease { percent: 50 }) {
        ApplyStep::NeedBacklightReading => {}
        other => panic!("{other:?}"),
    }
    match m.continue_apply(&BrightnessOp::Decrease { percent: 50 }, Some("400".to_string())) {
        ApplyStep::Write(w) => {
            assert_eq!(w.percent, 1);
            match m.finish_apply(&id2, &w, false) {
                Err(e) => assert!(e.message().starts_with("write brightness to /sys/class/backlight/intel_backlight;")),
                Ok(_) => panic!("failed write"),
            }
        }
        other => panic!("{other:?}"),
    }
    assert_eq!(m.list_monitors()[2].brightness_percent, 40);
    match m.continue_apply(&BrightnessOp::SetTo { percent: 5 }, Some("oops".to_string())) {
        ApplyStep::Failed(e) => assert_eq!(e.message(), "parse brightness"),
        other => panic!("{other:?}"),
    }
    match m.apply_to_monitor(&MonitorId("gone".to_string()), &BrightnessOp::SetTo { percent: 5 }) {
        ApplyStep::Failed(e) => assert_eq!(e.message(), "monitor not found: gone"),
        other => panic!("{other:?}"),
    }
}

#[test]
fn applying_to_all_monitors() {
    let mut m = manager();
    let op = BrightnessOp::SetTo { percent: 65 };
    let mut job = m.apply_to_all(&op);
    while let Some(id) = job.next_target() {
        let outcome = match m.apply_to_monitor(&id, &job.op()) {
            ApplyStep::Write(w) => m.finish_apply(&id, &w, true),
            ApplyStep::NeedBacklightReading => match m.continue_apply(&job.op(), Some("100".to_string())) {
                ApplyStep::Write(w) => m.finish_apply(&id, &w, true),
                ApplyStep::Failed(e) => Err(e),
                ApplyStep::NeedBacklightReading => unreachable!(),
            },
            ApplyStep::Failed(e) => Err(e),
        };
        job.record(outcome);
    }
    let results = job.into_results();
    assert_eq!(results.len(), 3);
    assert!(results.iter().all(|r| r.as_ref().map(|s| s.brightness_percent == 65).unwrap_or(false)));
    assert!(m.list_monitors().iter().all(|i| i.brightness_percent == 65));
}

#[test]
fn fade_starting_points() {
    let m = manager();
    let all = ids(&m);
    assert_eq!(m.fade_start_percent(&MonitorId(all[1].clone())), 70);
    assert_eq!(m.fade_start_percent(&MonitorId(all[2].clone())), 30);
    assert_eq!(m.fade_start_percent(&MonitorId("nothing".to_string())), 50);
}
