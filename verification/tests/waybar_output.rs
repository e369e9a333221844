use ddcstuff::monitor::{MonitorId, MonitorStatus};
use ddcstuff::waybar::format_waybar;

fn status(name: &str, p: u8) -> MonitorStatus {
    MonitorStatus { id: MonitorId(format!("id-{name}")), name: name.to_string(), brightness_percent: p }
}

#[test]
fn no_monitors() {
    let w = format_waybar(&[]);
    assert_eq!(w.text, "N/A");
    assert_eq!(w.tooltip, "No monitors found");
    assert_eq!(w.class, "brightness-error");
    assert_eq!(w.percentage, 0);
}

#[test]
fn average_and_tooltip() {
    let w = format_waybar(&[status("A", 10), status("B", 21)]);
    assert_eq!(w.text, "15%");
    assert_eq!(w.tooltip, "A: 10%\nB: 21%");
    assert_eq!(w.class, "brightness-low");
    assert_eq!(w.percentage, 15);
}

#[test]
fn class_threshold_is_thirty() {
    assert_eq!(format_waybar(&[status("A", 29)]).class, "brightness-low");
    assert_eq!(format_waybar(&[status("A", 30)]).class, "brightness");
    assert_eq!(format_waybar(&[status("A", 100)]).class, "brightness");
}

#[test]
fn percentage_is_capped() {
    let w = format_waybar(&[status("A", 200), status("B", 250)]);
    assert_eq!(w.text, "225%");
    assert_eq!(w.percentage, 100);
}

#[test]
fn average_fits_in_32_bits() {
    assert!(ddcstuff::waybar::average_computable(&[status("A", 255), status("B", 255)]));
    assert!(ddcstuff::waybar::average_computable(&[]));
}

#[test]
fn reordering_keeps_text_class_and_percentage() {
    let a = [status("DP-1", 20), status("eDP-1", 35), status("HDMI-A-1", 10)];
    let b = [status("HDMI-A-1", 10), status("DP-1", 20), status("eDP-1", 35)];
    let wa = format_waybar(&a);
    let wb = format_waybar(&b);
    assert_eq!(wa.text, "21%");
    assert_eq!(wa.text, wb.text);
    assert_eq!(wa.class, "brightness-low");
    assert_eq!(wa.class, wb.class);
    assert_eq!(wa.percentage, 21);
    assert_eq!(wa.percentage, wb.percentage);
    assert_eq!(wa.tooltip, "DP-1: 20%\neDP-1: 35%\nHDMI-A-1: 10%");
    assert_eq!(wb.tooltip, "HDMI-A-1: 10%\nDP-1: 20%\neDP-1: 35%");
}
