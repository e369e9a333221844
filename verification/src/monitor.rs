//! Monitor identity and the records that describe a monitor to clients.

use vstd::prelude::*;

verus! {

/// Stable, human-readable monitor identifier, such as
/// `"ddc-DEL-U2722D-a1b2c3d4"` for a DDC/CI monitor
/// (manufacturer, model, serial hash) or `"backlight-intel_backlight"`
/// for a sysfs backlight panel.
#[derive(Debug, Hash)]
pub struct MonitorId(pub String);

impl View for MonitorId {
    type V = Seq<char>;

    open spec fn view(&self) -> Seq<char> {
        self.0@
    }
}

impl MonitorId {
    /// The identifier as text, as it is displayed.
    pub fn as_str(&self) -> (s: &str)
        ensures
            s@ == self@,
    {
        self.0.as_str()
    }
}

impl Clone for MonitorId {
    fn clone(&self) -> (r: Self)
        ensures
            r@ == self@,
    {
        MonitorId(self.0.clone())
    }
}

impl PartialEq for MonitorId {
    fn eq(&self, other: &Self) -> (r: bool) {
        self.0 == other.0
    }
}

impl vstd::std_specs::cmp::PartialEqSpecImpl for MonitorId {
    open spec fn obeys_eq_spec() -> bool {
        true
    }

    open spec fn eq_spec(&self, other: &Self) -> bool {
        self@ == other@
    }
}

impl Eq for MonitorId {}

/// How a monitor is driven.
#[derive(Debug, Clone, Copy, PartialEq, Eq, Structural)]
pub enum MonitorKind {
    Ddc,
    Backlight,
}

/// A monitor as `list` shows it.
#[derive(Debug)]
pub struct MonitorInfo {
    pub id: MonitorId,
    pub name: String,
    pub kind: MonitorKind,
    /// Brightness 0-100 (cached).
    pub brightness_percent: u8,
}

/// The mathematical content of a [`MonitorInfo`].
pub struct MonitorInfoView {
    pub id: Seq<char>,
    pub name: Seq<char>,
    pub kind: MonitorKind,
    pub brightness_percent: u8,
}

impl View for MonitorInfo {
    type V = MonitorInfoView;

    open spec fn view(&self) -> MonitorInfoView {
        MonitorInfoView {
            id: self.id@,
            name: self.name@,
            kind: self.kind,
            brightness_percent: self.brightness_percent,
        }
    }
}

impl Clone for MonitorInfo {
    fn clone(&self) -> (r: Self)
        ensures
            r@ == self@,
    {
        MonitorInfo {
            id: self.id.clone(),
            name: self.name.clone(),
            kind: self.kind,
            brightness_percent: self.brightness_percent,
        }
    }
}

/// A monitor's brightness as `get` reports it.
#[derive(Debug)]
pub struct MonitorStatus {
    pub id: MonitorId,
    pub name: String,
    pub brightness_percent: u8,
}

/// The mathematical content of a [`MonitorStatus`].
pub struct MonitorStatusView {
    pub id: Seq<char>,
    pub name: Seq<char>,
    pub brightness_percent: u8,
}

impl View for MonitorStatus {
    type V = MonitorStatusView;

    open spec fn view(&self) -> MonitorStatusView {
        MonitorStatusView { id: self.id@, name: self.name@, brightness_percent: self.brightness_percent }
    }
}

impl Clone for MonitorStatus {
    fn clone(&self) -> (r: Self)
        ensures
            r@ == self@,
    {
        MonitorStatus {
            id: self.id.clone(),
            name: self.name.clone(),
            brightness_percent: self.brightness_percent,
        }
    }
}

/// The views of a sequence of statuses.
pub open spec fn statuses_view(s: Seq<MonitorStatus>) -> Seq<MonitorStatusView> {
    s.map_values(|m: MonitorStatus| m@)
}

/// The views of a sequence of monitor records.
pub open spec fn infos_view(s: Seq<MonitorInfo>) -> Seq<MonitorInfoView> {
    s.map_values(|m: MonitorInfo| m@)
}

/// The views of a sequence of identifiers.
pub open spec fn ids_view(s: Seq<MonitorId>) -> Seq<Seq<char>> {
    s.map_values(|m: MonitorId| m@)
}

} // verus!
