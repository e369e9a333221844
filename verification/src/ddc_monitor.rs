//! DDC/CI monitors: their identity and brightness (VCP feature 0x10).
//!
//! Talking to the monitor over I2C is left to the caller: a monitor is built
//! from what probing it read, and a brightness change is the value to write
//! followed by whether the write succeeded.

use vstd::prelude::*;
use vstd::string::*;
use crate::monitor::{MonitorId, MonitorInfo, MonitorKind, MonitorInfoView};
use crate::text::{hex_digits, hex8, opt_text};

verus! {

/// What identifies a display: its backend-specific id, and the
/// manufacturer, model name and serial number that its EDID gave, if any.
#[derive(Debug)]
pub struct DisplayIdentity {
    pub id: String,
    pub manufacturer_id: Option<String>,
    pub model_name: Option<String>,
    pub serial_number: Option<String>,
}

/// The mathematical content of a [`DisplayIdentity`].
pub struct DisplayIdentityView {
    pub id: Seq<char>,
    pub manufacturer_id: Option<Seq<char>>,
    pub model_name: Option<Seq<char>>,
    pub serial_number: Option<Seq<char>>,
}

impl View for DisplayIdentity {
    type V = DisplayIdentityView;

    open spec fn view(&self) -> DisplayIdentityView {
        DisplayIdentityView {
            id: self.id@,
            manufacturer_id: opt_text(self.manufacturer_id),
            model_name: opt_text(self.model_name),
            serial_number: opt_text(self.serial_number),
        }
    }
}

/// The bytes of a VCP feature reply: maximum (high, low) and current
/// value (high, low).
#[derive(Debug, Clone, Copy)]
pub struct VcpReading {
    pub mh: u8,
    pub ml: u8,
    pub sh: u8,
    pub sl: u8,
}

impl VcpReading {
    /// The current value, `(sh << 8) | sl`.
    pub fn value(&self) -> (r: u16)
        ensures
            r == self.sh * 256 + self.sl,
    {
        self.sh as u16 * 256 + self.sl as u16
    }

    /// The maximum value, `(mh << 8) | ml`.
    pub fn maximum(&self) -> (r: u16)
        ensures
            r == self.mh * 256 + self.ml,
    {
        self.mh as u16 * 256 + self.ml as u16
    }
}

/// Why a DDC/CI operation failed.
#[derive(Debug, Clone, Copy, PartialEq, Eq, Structural)]
pub enum DdcMonitorError {
    /// Reading the brightness when probing failed: the display does not
    /// speak DDC/CI.
    ProbeFailed,
    /// Writing the brightness failed.
    SetFailed,
}

impl DdcMonitorError {
    /// The error as it is displayed.
    pub fn message(&self) -> (r: String)
        ensures
            r@ == ddc_error_text(*self),
    {
        match self {
            DdcMonitorError::ProbeFailed => String::from_str("DDC probe failed"),
            DdcMonitorError::SetFailed => String::from_str("DDC set brightness"),
        }
    }
}

/// The displayed text of a [`DdcMonitorError`].
pub open spec fn ddc_error_text(e: DdcMonitorError) -> Seq<char> {
    match e {
        DdcMonitorError::ProbeFailed => "DDC probe failed"@,
        DdcMonitorError::SetFailed => "DDC set brightness"@,
    }
}

/// A DDC/CI monitor.
#[derive(Debug)]
pub struct DdcMonitor {
    pub id: MonitorId,
    pub name: String,
    cached_percent: u8,
    /// The maximum of VCP feature 0x10 (brightness), usually 100.
    max_value: u16,
}

/// The mathematical content of a [`DdcMonitor`].
pub struct DdcMonitorView {
    pub id: Seq<char>,
    pub name: Seq<char>,
    pub cached_percent: u8,
    pub max_value: u16,
}

impl View for DdcMonitor {
    type V = DdcMonitorView;

    closed spec fn view(&self) -> DdcMonitorView {
        DdcMonitorView {
            id: self.id@,
            name: self.name@,
            cached_percent: self.cached_percent,
            max_value: self.max_value,
        }
    }
}

impl DdcMonitorView {
    /// A monitor built by [`DdcMonitor::from_display`] has a positive
    /// maximum and a cached percentage of at most 100.
    pub open spec fn wf(self) -> bool {
        self.max_value >= 1 && self.cached_percent <= 100
    }
}

/// The name shown for a display.
pub open spec fn monitor_name_spec(info: DisplayIdentityView) -> Seq<char> {
    match (info.model_name, info.manufacturer_id) {
        (Some(model), Some(mfr)) => mfr + " "@ + model,
        (Some(model), None) => model,
        (None, Some(mfr)) => mfr,
        (None, None) => "Monitor ("@ + info.id + ")"@,
    }
}

/// The 32-bit rolling hash `h = h * 31 + b` (wrapping) of `bytes`.
pub open spec fn byte_hash(bytes: Seq<u8>) -> nat
    decreases bytes.len(),
{
    if bytes.len() == 0 {
        0
    } else {
        ((byte_hash(bytes.drop_last()) * 31 + bytes.last()) % 0x1_0000_0000) as nat
    }
}

/// `s` with each space replaced by an underscore.
pub open spec fn underscores(s: Seq<char>) -> Seq<char> {
    Seq::new(s.len(), |i: int| if s[i] == ' ' { '_' } else { s[i] })
}

/// The identifier of a display: `ddc-{manufacturer}-{model}-{hash}`, with
/// `UNK` for an unknown manufacturer, the model's spaces made underscores,
/// and the hash, in eight hexadecimal digits, of the UTF-8 bytes of the
/// serial number, or of the display id where there is no serial number.
pub open spec fn monitor_id_spec(info: DisplayIdentityView) -> Seq<char> {
    let mfr = match info.manufacturer_id { Some(m) => m, None => "UNK"@ };
    let model = match info.model_name { Some(m) => underscores(m), None => Seq::empty() };
    let serial = match info.serial_number { Some(s) => s, None => Seq::empty() };
    let source = if serial.len() == 0 { info.id } else { serial };
    "ddc-"@ + mfr + "-"@ + model + "-"@ + hex_digits(byte_hash(vstd::utf8::encode_utf8(source)), 8)
}

/// Builds the name shown for a display.
pub fn build_monitor_name(info: &DisplayIdentity) -> (r: String)
    ensures
        r@ == monitor_name_spec(info@),
{
    match (&info.model_name, &info.manufacturer_id) {
        (Some(model), Some(mfr)) => {
            let mut r = mfr.clone();
            r.append(" ");
            r.append(model.as_str());
            r
        },
        (Some(model), None) => model.clone(),
        (None, Some(mfr)) => mfr.clone(),
        (None, None) => {
            let mut r = String::from_str("Monitor (");
            r.append(info.id.as_str());
            r.append(")");
            r
        },
    }
}

fn hash_text(s: &str) -> (h: u32)
    ensures
        h as nat == byte_hash(vstd::utf8::encode_utf8(s@)),
{
    let bytes = s.as_bytes();
    let mut h: u32 = 0;
    let mut i: usize = 0;
    while i < bytes.len()
        invariant
            i <= bytes@.len(),
            bytes@ == vstd::utf8::encode_utf8(s@),
            h as nat == byte_hash(bytes@.take(i as int)),
        decreases bytes@.len() - i,
    {
        assert(bytes@.take(i + 1).drop_last() =~= bytes@.take(i as int));
        h = ((h as u64 * 31 + bytes[i] as u64) % 0x1_0000_0000) as u32;
        i = i + 1;
    }
    assert(bytes@.take(i as int) =~= bytes@);
    h
}

fn replace_spaces(s: &str) -> (r: String)
    ensures
        r@ == underscores(s@),
{
    let n = s.unicode_len();
    let mut r = String::new();
    let mut i: usize = 0;
    while i < n
        invariant
            i <= n,
            n == s@.len(),
            r@ == underscores(s@).take(i as int),
        decreases n - i,
    {
        if s.get_char(i) == ' ' {
            proof { reveal_strlit("_"); }
            r.append("_");
        } else {
            r.append(s.substring_char(i, i + 1));
        }
        i = i + 1;
        assert(r@ =~= underscores(s@).take(i as int));
    }
    assert(underscores(s@).take(n as int) =~= underscores(s@));
    r
}

/// Builds the identifier of a display.
pub fn build_monitor_id(info: &DisplayIdentity) -> (r: MonitorId)
    ensures
        r@ == monitor_id_spec(info@),
{
    let mfr = match &info.manufacturer_id {
        Some(m) => m.clone(),
        None => String::from_str("UNK"),
    };
    let model = match &info.model_name {
        Some(m) => replace_spaces(m.as_str()),
        None => String::new(),
    };
    let serial = match &info.serial_number {
        Some(s) => s.clone(),
        None => String::new(),
    };
    let h = if serial.as_str().unicode_len() == 0 {
        hash_text(info.id.as_str())
    } else {
        hash_text(serial.as_str())
    };
    let mut r = String::from_str("ddc-");
    r.append(mfr.as_str());
    r.append("-");
    r.append(model.as_str());
    r.append("-");
    let hx = hex8(h);
    r.append(hx.as_str());
    MonitorId(r)
}

/// The monitor that probing a display gave, or `ProbeFailed` where the
/// brightness could not be read (`None`).
pub open spec fn from_display_spec(info: DisplayIdentityView, probe: Option<VcpReading>) -> Result<DdcMonitorView, DdcMonitorError> {
    match probe {
        None => Err(DdcMonitorError::ProbeFailed),
        Some(v) => {
            let current = v.sh * 256 + v.sl;
            let max = if v.mh * 256 + v.ml >= 1 { v.mh * 256 + v.ml } else { 1 };
            let p = current * 100 / max;
            Ok(DdcMonitorView {
                id: monitor_id_spec(info),
                name: monitor_name_spec(info),
                cached_percent: if p > 100 { 100 } else { p as u8 },
                max_value: max as u16,
            })
        },
    }
}

impl DdcMonitor {
    /// The monitor for a display, given the reply to reading its brightness
    /// (`None`: the read failed, and the display is skipped).
    pub fn from_display(info: &DisplayIdentity, probe: Option<VcpReading>) -> (r: Result<DdcMonitor, DdcMonitorError>)
        ensures
            match from_display_spec(info@, probe) {
                Ok(v) => r matches Ok(m) && m@ == v,
                Err(e) => r == Err::<DdcMonitor, DdcMonitorError>(e),
            },
    {
        let val = match probe {
            Some(v) => v,
            None => return Err(DdcMonitorError::ProbeFailed),
        };
        let current = val.value();
        let raw_max = val.maximum();
        let max: u16 = if raw_max >= 1 { raw_max } else { 1 };
        let name = build_monitor_name(info);
        let id = build_monitor_id(info);
        let p: u32 = current as u32 * 100 / max as u32;
        let cached_percent: u8 = if p > 100 { 100 } else { p as u8 };
        Ok(DdcMonitor { id, name, cached_percent, max_value: max })
    }

    /// The raw value to write to VCP feature 0x10 for `percent` (at most
    /// 100): `percent * max_value / 100`.
    pub fn brightness_value(&self, percent: u8) -> (v: u16)
        ensures
            v == (if percent > 100 { 100 } else { percent }) * self@.max_value / 100,
    {
        let p: u32 = if percent > 100 { 100 } else { percent as u32 };
        let m: u32 = self.max_value as u32;
        assert(p * m / 100 <= m) by (nonlinear_arith)
            requires p <= 100;
        (p * m / 100) as u16
    }

    /// Records the outcome of writing [`DdcMonitor::brightness_value`]: on
    /// success the cache holds `percent` (at most 100); on failure nothing changes.
    pub fn set_percent(&mut self, percent: u8, written: bool) -> (r: Result<(), DdcMonitorError>)
        requires
            old(self)@.wf(),
        ensures
            written ==> r is Ok && final(self)@ == (DdcMonitorView {
                cached_percent: if percent > 100 { 100 } else { percent },
                ..old(self)@
            }),
            !written ==> r == Err::<(), DdcMonitorError>(DdcMonitorError::SetFailed)
                && final(self)@ == old(self)@,
            final(self)@.wf(),
    {
        if !written {
            return Err(DdcMonitorError::SetFailed);
        }
        self.cached_percent = if percent > 100 { 100 } else { percent };
        Ok(())
    }

    /// The identifier.
    pub fn id(&self) -> (r: &MonitorId)
        ensures
            r@ == self@.id,
    {
        &self.id
    }

    /// The name.
    pub fn name(&self) -> (r: &String)
        ensures
            r@ == self@.name,
    {
        &self.name
    }

    /// The cached brightness.
    pub fn cached_percent(&self) -> (p: u8)
        ensures
            p == self@.cached_percent,
    {
        self.cached_percent
    }

    /// The monitor as `list` shows it.
    pub fn info(&self) -> (r: MonitorInfo)
        ensures
            r@ == (MonitorInfoView {
                id: self@.id,
                name: self@.name,
                kind: MonitorKind::Ddc,
                brightness_percent: self@.cached_percent,
            }),
    {
        MonitorInfo {
            id: self.id.clone(),
            name: self.name.clone(),
            kind: MonitorKind::Ddc,
            brightness_percent: self.cached_percent,
        }
    }
}

} // verus!
