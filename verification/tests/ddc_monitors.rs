use ddcstuff::ddc_monitor::{build_monitor_id, build_monitor_name, DdcMonitor, DdcMonitorError, DisplayIdentity, VcpReading};

fn ident(id: &str, mfr: Option<&str>, model: Option<&str>, serial: Option<&str>) -> DisplayIdentity {
    DisplayIdentity {
        id: id.to_string(),
        manufacturer_id: mfr.map(|s| s.to_string()),
        model_name: model.map(|s| s.to_string()),
        serial_number: serial.map(|s| s.to_string()),
    }
}

fn reference_hash(s: &str) -> u32 {
    s.bytes().fold(0u32, |a, b| a.wrapping_mul(31).wrapping_add(b as u32))
}

#[test]
fn vcp_values() {
    let v = VcpReading { mh: 0x01, ml: 0x02, sh: 0x03, sl: 0x04 };
    assert_eq!(v.maximum(), 0x0102);
    assert_eq!(v.value(), 0x0304);
}

#[test]
fn names() {
    assert_eq!(build_monitor_name(&ident("i2c-4", Some("DEL"), Some("U2722D"), None)), "DEL U2722D");
    assert_eq!(build_monitor_name(&ident("i2c-4", None, Some("U2722D"), None)), "U2722D");
    assert_eq!(build_monitor_name(&ident("i2c-4", Some("DEL"), None, None)), "DEL");
    assert_eq!(build_monitor_name(&ident("i2c-4", None, None, None)), "Monitor (i2c-4)");
}

#[test]
fn identifiers() {
    let id = build_monitor_id(&ident("i2c-4", Some("DEL"), Some("U2722 D"), Some("ABC")));
    assert_eq!(id.as_str(), "ddc-DEL-U2722_D-0000fc42");
    let id = build_monitor_id(&ident("i2c-4", None, None, None));
    assert_eq!(id.as_str(), format!("ddc-UNK--{:08x}", reference_hash("i2c-4")));
    let id = build_monitor_id(&ident("i2c-7", Some("BNQ"), Some("BenQ PD2700U"), Some("")));
    assert_eq!(id.as_str(), format!("ddc-BNQ-BenQ_PD2700U-{:08x}", reference_hash("i2c-7")));
    let long = "x".repeat(100) + "é";
    let id = build_monitor_id(&ident("i2c-1", Some("A"), Some("B"), Some(&long)));
    assert_eq!(id.as_str(), format!("ddc-A-B-{:08x}", reference_hash(&long)));
}

#[test]
fn probing() {
    let info = ident("i2c-4", Some("DEL"), Some("U2722D"), Some("ABC"));
    assert!(matches!(DdcMonitor::from_display(&info, None), Err(DdcMonitorError::ProbeFailed)));
    let m = DdcMonitor::from_display(&info, Some(VcpReading { mh: 0, ml: 100, sh: 0, sl: 40 })).unwrap();
    assert_eq!(m.cached_percent(), 40);
    assert_eq!(m.name, "DEL U2722D");
    assert_eq!(m.id.as_str(), "ddc-DEL-U2722D-0000fc42");
    let zero_max = DdcMonitor::from_display(&info, Some(VcpReading { mh: 0, ml: 0, sh: 0, sl: 3 })).unwrap();
    assert_eq!(zero_max.cached_percent(), 100);
    assert_eq!(zero_max.brightness_value(50), 0);
    let wide = DdcMonitor::from_display(&info, Some(VcpReading { mh: 0xff, ml: 0xff, sh: 0x7f, sl: 0xff })).unwrap();
    assert_eq!(wide.cached_percent(), 49);
    assert_eq!(wide.brightness_value(100), 0xffff);
    assert_eq!(wide.brightness_value(250), 0xffff);
    assert_eq!(wide.brightness_value(50), 32767);
}

#[test]
fn setting_brightness() {
    let info = ident("i2c-4", None, None, None);
    let mut m = DdcMonitor::from_display(&info, Some(VcpReading { mh: 0, ml: 100, sh: 0, sl: 40 })).unwrap();
    assert!(m.set_percent(70, true).is_ok());
    assert_eq!(m.cached_percent(), 70);
    assert_eq!(m.set_percent(20, false), Err(DdcMonitorError::SetFailed));
    assert_eq!(m.cached_percent(), 70);
    assert!(m.set_percent(180, true).is_ok());
    assert_eq!(m.cached_percent(), 100);
    assert_eq!(DdcMonitorError::SetFailed.message(), "DDC set brightness");
    assert_eq!(DdcMonitorError::ProbeFailed.message(), "DDC probe failed");
    let info = m.info();
    assert_eq!(info.kind, ddcstuff::monitor::MonitorKind::Ddc);
    assert_eq!(info.brightness_percent, 100);
}
