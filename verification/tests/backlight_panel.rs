use ddcstuff::text::path_file_name;
use ddcstuff::backlight::{
    backlight_type_priority, max_brightness_file, parse_sysfs_number, scans_directory, select_backlight, Backlight,
    BacklightCandidate, BacklightError,
};

fn cand(path: &str, t: Option<&str>) -> BacklightCandidate {
    BacklightCandidate { path: path.to_string(), type_text: t.map(|s| s.to_string()) }
}

#[test]
fn type_priorities() {
    assert_eq!(backlight_type_priority(&Some("raw\n".to_string())), 3);
    assert_eq!(backlight_type_priority(&Some("Platform".to_string())), 2);
    assert_eq!(backlight_type_priority(&Some(" FIRMWARE ".to_string())), 1);
    assert_eq!(backlight_type_priority(&Some("other".to_string())), 0);
    assert_eq!(backlight_type_priority(&None), 0);
}

#[test]
fn selection_prefers_the_first_of_highest_priority() {
    let c = vec![cand("/a", Some("firmware")), cand("/b", Some("raw")), cand("/c", Some("raw")), cand("/d", Some("platform"))];
    assert_eq!(select_backlight(&c), Some(1));
    let none = vec![cand("/a", Some("unknown")), cand("/b", None)];
    assert_eq!(select_backlight(&none), None);
    assert_eq!(select_backlight(&vec![]), None);
    assert_eq!(Backlight::detect("", &c), Some("/b".to_string()));
    assert_eq!(Backlight::detect("/sys/class/backlight/acpi_video0", &c), Some("/sys/class/backlight/acpi_video0".to_string()));
    assert_eq!(Backlight::detect("", &none), None);
    assert!(scans_directory(""));
    assert!(!scans_directory("/x"));
}

#[test]
fn sysfs_numbers() {
    assert_eq!(parse_sysfs_number(" 1000\n"), Some(1000));
    assert_eq!(parse_sysfs_number("4294967295"), Some(u32::MAX));
    assert_eq!(parse_sysfs_number("4294967296"), None);
    assert_eq!(parse_sysfs_number("x"), None);
}

#[test]
fn opening_a_backlight() {
    let path = "/sys/class/backlight/intel_backlight";
    assert_eq!(max_brightness_file(path), "/sys/class/backlight/intel_backlight/max_brightness");
    let bl = Backlight::from_path(path, Some("1000\n".to_string())).unwrap();
    assert_eq!(bl.id.as_str(), "backlight-intel_backlight");
    assert_eq!(bl.name, "intel_backlight");
    assert_eq!(bl.cached_percent(), 0);
    assert_eq!(bl.brightness_file(), "/sys/class/backlight/intel_backlight/brightness");
    let odd = Backlight::from_path("/", Some("5".to_string())).unwrap();
    assert_eq!(odd.name, "backlight");
    assert_eq!(odd.id.as_str(), "backlight-backlight");
}

#[test]
fn final_path_components() {
    let cases = [
        "/sys/class/backlight/intel_backlight/",
        "/sys/class/backlight/intel_backlight/.",
        "/sys/class/backlight/intel_backlight//./",
        "a/b/..",
        "..",
        ".",
        "./",
        "/",
        "",
        "a/../b",
        "...",
        "./x",
        "x/./.",
        "//a//",
    ];
    for c in cases {
        let expected = std::path::Path::new(c).file_name().map(|n| n.to_str().unwrap().to_string());
        assert_eq!(path_file_name(c), expected, "path {c:?}");
    }
    assert_eq!(path_file_name("a/b/."), Some("b".to_string()));
    assert_eq!(path_file_name("a/.."), None);
    let trailing = Backlight::from_path("/sys/class/backlight/acpi_video0/", Some("15".to_string())).unwrap();
    assert_eq!(trailing.name, "acpi_video0");
    let parent = Backlight::from_path("/sys/class/backlight/..", Some("15".to_string())).unwrap();
    assert_eq!(parent.name, "backlight");
}

#[test]
fn opening_errors() {
    let p = "/sys/class/backlight/x";
    assert!(matches!(Backlight::from_path(p, None), Err(BacklightError::ReadMaxBrightness)));
    assert!(matches!(Backlight::from_path(p, Some("abc".to_string())), Err(BacklightError::ParseMaxBrightness)));
    assert!(matches!(Backlight::from_path(p, Some("0".to_string())), Err(BacklightError::ZeroMaxBrightness)));
    assert_eq!(BacklightError::ReadMaxBrightness.message(), "read max_brightness");
    assert_eq!(BacklightError::ParseMaxBrightness.message(), "parse max_brightness");
    assert_eq!(BacklightError::ZeroMaxBrightness.message(), "max_brightness is 0");
}

#[test]
fn reading_brightness() {
    let mut bl = Backlight::from_path("/sys/class/backlight/x", Some("1000".to_string())).unwrap();
    bl.load_initial_brightness(Some("250\n".to_string()));
    assert_eq!(bl.cached_percent(), 25);
    assert_eq!(bl.get_percent(Some("500".to_string())).unwrap(), 50);
    assert_eq!(bl.cached_percent(), 50);
    assert_eq!(bl.get_percent(Some("2000".to_string())).unwrap(), 100);
    assert!(matches!(bl.get_percent(None), Err(BacklightError::ReadBrightness)));
    assert!(matches!(bl.get_percent(Some("?".to_string())), Err(BacklightError::ParseBrightness)));
    assert_eq!(bl.cached_percent(), 100);
    assert_eq!(BacklightError::ReadBrightness.message(), "read brightness");
    assert_eq!(BacklightError::ParseBrightness.message(), "parse brightness");
    bl.load_initial_brightness(None);
    assert_eq!(bl.cached_percent(), 0);
    assert!(Backlight::reading_fits(&Some("42949672".to_string())));
    assert!(!Backlight::reading_fits(&Some("42949673".to_string())));
}

#[test]
fn writing_brightness() {
    let mut bl = Backlight::from_path("/sys/class/backlight/x", Some("937".to_string())).unwrap();
    assert!(bl.write_fits(100));
    let w = bl.brightness_write(50);
    assert_eq!(w.file, "/sys/class/backlight/x/brightness");
    assert_eq!(w.contents, "468");
    assert_eq!(bl.brightness_write(200).contents, "937");
    assert!(bl.set_percent(150, true).is_ok());
    assert_eq!(bl.cached_percent(), 100);
    match bl.set_percent(10, false) {
        Err(e) => assert_eq!(
            e.message(),
            "write brightness to /sys/class/backlight/x; make sure you are in the 'video' group or have a udev rule granting write access"
        ),
        Ok(()) => panic!("write failure must be reported"),
    }
    assert_eq!(bl.cached_percent(), 100);
    let huge = Backlight::from_path("/x", Some("4000000000".to_string())).unwrap();
    assert!(huge.write_fits(1));
    assert!(!huge.write_fits(2));
    assert!(huge.write_fits(0));
}

#[test]
fn records_of_a_backlight() {
    let mut bl = Backlight::from_path("/sys/class/backlight/amdgpu_bl0", Some("255".to_string())).unwrap();
    bl.load_initial_brightness(Some("128".to_string()));
    let info = bl.info();
    assert_eq!(info.id.as_str(), "backlight-amdgpu_bl0");
    assert_eq!(info.name, "amdgpu_bl0");
    assert_eq!(info.kind, ddcstuff::monitor::MonitorKind::Backlight);
    assert_eq!(info.brightness_percent, 50);
    let st = bl.status();
    assert_eq!(st.id.as_str(), "backlight-amdgpu_bl0");
    assert_eq!(st.brightness_percent, 50);
}
