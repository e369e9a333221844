//! Sysfs backlight panels (`/sys/class/backlight/*`): choosing one, reading
//! and writing its brightness.
//!
//! Reading and writing the sysfs files is left to the caller: the functions
//! here say which file to read or write and with what, and take what a read
//! gave back, or whether a write succeeded.

use vstd::prelude::*;
use vstd::string::*;
use crate::monitor::{MonitorId, MonitorInfo, MonitorKind, MonitorStatus, MonitorInfoView, MonitorStatusView};
use crate::text::{opt_text, path_file_name, file_name_spec, trim, trim_spec, parse_unsigned, parse_unsigned_spec, matches_word, matches_word_spec, path_join, path_join_spec, format_decimal, decimal};

verus! {

/// Why a backlight could not be opened, read or written.
#[derive(Debug)]
pub enum BacklightError {
    ReadMaxBrightness,
    ParseMaxBrightness,
    ZeroMaxBrightness,
    ReadBrightness,
    ParseBrightness,
    /// Writing the brightness of the backlight at `path` failed.
    WriteBrightness { path: String },
}

impl BacklightError {
    /// The error as it is displayed.
    pub fn message(&self) -> (r: String)
        ensures
            r@ == backlight_error_text(*self),
    {
        match self {
            BacklightError::ReadMaxBrightness => String::from_str("read max_brightness"),
            BacklightError::ParseMaxBrightness => String::from_str("parse max_brightness"),
            BacklightError::ZeroMaxBrightness => String::from_str("max_brightness is 0"),
            BacklightError::ReadBrightness => String::from_str("read brightness"),
            BacklightError::ParseBrightness => String::from_str("parse brightness"),
            BacklightError::WriteBrightness { path } => {
                let mut r = String::from_str("write brightness to ");
                r.append(path.as_str());
                r.append(
                    "; make sure you are in the 'video' group or have a udev rule granting write access",
                );
                r
            },
        }
    }
}

/// The displayed text of a [`BacklightError`].
pub open spec fn backlight_error_text(e: BacklightError) -> Seq<char> {
    match e {
        BacklightError::ReadMaxBrightness => "read max_brightness"@,
        BacklightError::ParseMaxBrightness => "parse max_brightness"@,
        BacklightError::ZeroMaxBrightness => "max_brightness is 0"@,
        BacklightError::ReadBrightness => "read brightness"@,
        BacklightError::ParseBrightness => "parse brightness"@,
        BacklightError::WriteBrightness { path } => "write brightness to "@ + path@
            + "; make sure you are in the 'video' group or have a udev rule granting write access"@,
    }
}

/// A backlight panel.
#[derive(Debug)]
pub struct Backlight {
    pub id: MonitorId,
    pub name: String,
    path: String,
    max_brightness: u32,
    cached_percent: u8,
}

/// The mathematical content of a [`Backlight`].
pub struct BacklightView {
    pub id: Seq<char>,
    pub name: Seq<char>,
    pub path: Seq<char>,
    pub max_brightness: u32,
    pub cached_percent: u8,
}

impl View for Backlight {
    type V = BacklightView;

    closed spec fn view(&self) -> BacklightView {
        BacklightView {
            id: self.id@,
            name: self.name@,
            path: self.path@,
            max_brightness: self.max_brightness,
            cached_percent: self.cached_percent,
        }
    }
}

impl BacklightView {
    /// A backlight opened by [`Backlight::from_path`] has a positive maximum
    /// and a cached percentage of at most 100.
    pub open spec fn wf(self) -> bool {
        self.max_brightness > 0 && self.cached_percent <= 100
    }

    /// Whether writing `percent` computes its raw value without overflow.
    pub open spec fn write_fits(self, percent: u8) -> bool {
        clamp_percent(percent) * self.max_brightness <= u32::MAX
    }
}

/// `percent`, at most 100.
pub open spec fn clamp_percent(percent: u8) -> u8 {
    if percent > 100 { 100 } else { percent }
}

/// The percentage of the raw brightness `raw` out of `max`, at most 100.
pub open spec fn percent_of_raw(raw: nat, max: nat) -> u8 {
    if raw * 100 / max > 100 { 100 } else { (raw * 100 / max) as u8 }
}

/// The raw value written for a percentage.
pub open spec fn raw_of_percent(percent: u8, max: nat) -> nat {
    (clamp_percent(percent) * max / 100) as nat
}

/// The number that a sysfs brightness file holds: trimmed, then read as a `u32`.
pub open spec fn sysfs_number(text: Seq<char>) -> Option<nat> {
    parse_unsigned_spec(trim_spec(text), u32::MAX as nat)
}

/// Whether a brightness reading converts to a percentage without overflow.
pub open spec fn reading_fits_spec(reading: Option<Seq<char>>) -> bool {
    match reading {
        Some(t) => match sysfs_number(t) {
            Some(raw) => raw * 100 <= u32::MAX,
            None => true,
        },
        None => true,
    }
}

/// The percentage that a reading of the `brightness` file gives, for a panel
/// whose maximum is `max`; `None` is a failed read.
pub open spec fn percent_from_reading(reading: Option<Seq<char>>, max: nat) -> Result<u8, BacklightError> {
    match reading {
        None => Err(BacklightError::ReadBrightness),
        Some(t) => match sysfs_number(t) {
            None => Err(BacklightError::ParseBrightness),
            Some(raw) => Ok(percent_of_raw(raw, max)),
        },
    }
}

/// Parses the number held by a sysfs file.
pub fn parse_sysfs_number(text: &str) -> (r: Option<u32>)
    ensures
        r matches Some(v) ==> sysfs_number(text@) == Some(v as nat),
        r is None ==> sysfs_number(text@) is None,
{
    let t = trim(text);
    match parse_unsigned(t.as_str(), 0xffff_ffff) {
        Some(v) => Some(v as u32),
        None => None,
    }
}

/// The priority of a backlight type: raw 3, platform 2, firmware 1, anything
/// else (or an unreadable `type` file, `None`) 0.
pub open spec fn type_priority_spec(type_text: Option<Seq<char>>) -> u8 {
    match type_text {
        None => 0,
        Some(t) => {
            let w = trim_spec(t);
            if matches_word_spec(w, "raw"@) { 3 }
            else if matches_word_spec(w, "platform"@) { 2 }
            else if matches_word_spec(w, "firmware"@) { 1 }
            else { 0 }
        },
    }
}

/// Scores a backlight by the contents of its `type` file.
pub fn backlight_type_priority(type_text: &Option<String>) -> (p: u8)
    ensures
        p == type_priority_spec(opt_text(*type_text)),
{
    match type_text {
        None => 0,
        Some(t) => {
            let w = trim(t.as_str());
            if matches_word(w.as_str(), "raw") { 3 }
            else if matches_word(w.as_str(), "platform") { 2 }
            else if matches_word(w.as_str(), "firmware") { 1 }
            else { 0 }
        },
    }
}

/// An entry of the backlight class directory: its path and what its `type`
/// file holds (`None` when it could not be read).
#[derive(Debug)]
pub struct BacklightCandidate {
    pub path: String,
    pub type_text: Option<String>,
}

/// The priorities of candidates, in order.
pub open spec fn priorities(c: Seq<BacklightCandidate>) -> Seq<u8> {
    c.map_values(|e: BacklightCandidate| type_priority_spec(opt_text(e.type_text)))
}

/// The candidate chosen among priorities `p`, scanning in order: the first
/// one of positive priority, replaced by each later one of strictly greater
/// priority.
pub open spec fn best_candidate(p: Seq<u8>) -> Option<int>
    decreases p.len(),
{
    if p.len() == 0 {
        None
    } else {
        let k = p.len() - 1;
        match best_candidate(p.drop_last()) {
            Some(i) => if p[k] > p[i] { Some(k) } else { Some(i) },
            None => if p[k] > 0 { Some(k) } else { None },
        }
    }
}

/// The chosen candidate is the first one of the greatest priority, and
/// there is none only where every priority is 0.
pub proof fn lemma_best_candidate(p: Seq<u8>)
    ensures
        best_candidate(p) matches Some(i) ==> {
            &&& 0 <= i < p.len()
            &&& p[i] > 0
            &&& forall|j: int| 0 <= j < p.len() ==> p[j] <= p[i]
            &&& forall|j: int| 0 <= j < i ==> p[j] < p[i]
        },
        best_candidate(p) is None ==> forall|j: int| 0 <= j < p.len() ==> p[j] == 0,
    decreases p.len(),
{
    if p.len() > 0 {
        let q = p.drop_last();
        lemma_best_candidate(q);
        assert(forall|j: int| 0 <= j < q.len() ==> q[j] == p[j]);
    }
}

/// Chooses among the entries of the backlight directory.
pub fn select_backlight(candidates: &Vec<BacklightCandidate>) -> (r: Option<usize>)
    ensures
        r matches Some(i) ==> best_candidate(priorities(candidates@)) == Some(i as int),
        r is None ==> best_candidate(priorities(candidates@)) is None,
{
    let mut best: Option<(u8, usize)> = None;
    let mut k: usize = 0;
    while k < candidates.len()
        invariant
            k <= candidates.len(),
            match best {
                Some((p, i)) => best_candidate(priorities(candidates@).take(k as int)) == Some(i as int)
                    && i < k && p == priorities(candidates@)[i as int],
                None => best_candidate(priorities(candidates@).take(k as int)) is None,
            },
        decreases candidates.len() - k,
    {
        let pr = backlight_type_priority(&candidates[k].type_text);
        let ghost ps = priorities(candidates@);
        assert(ps.take(k + 1).drop_last() =~= ps.take(k as int));
        assert(ps[k as int] == pr);
        match best {
            Some((cur, _)) => {
                if pr > cur {
                    best = Some((pr, k));
                }
            },
            None => {
                if pr > 0 {
                    best = Some((pr, k));
                }
            },
        }
        k = k + 1;
    }
    assert(priorities(candidates@).take(k as int) =~= priorities(candidates@));
    match best {
        Some((_, i)) => Some(i),
        None => None,
    }
}

/// The name a backlight at `path` goes by.
pub open spec fn backlight_name(path: Seq<char>) -> Seq<char> {
    match file_name_spec(path) {
        Some(n) => n,
        None => "backlight"@,
    }
}

/// The plan for finding the backlight when `override_path` is configured
/// (empty when it is not): scan the class directory only without an override.
pub fn scans_directory(override_path: &str) -> (r: bool)
    ensures
        r == (override_path@.len() == 0),
{
    override_path.unicode_len() == 0
}

/// The `max_brightness` file of the backlight at `path`.
pub fn max_brightness_file(path: &str) -> (r: String)
    ensures
        r@ == path_join_spec(path@, "max_brightness"@),
{
    proof { reveal_strlit("max_brightness"); }
    path_join(path, "max_brightness")
}

/// The result of opening the backlight at `path`, given what its
/// `max_brightness` file held (`None`: it could not be read).
pub open spec fn open_spec(path: Seq<char>, max_reading: Option<Seq<char>>) -> Result<BacklightView, BacklightError> {
    match max_reading {
        None => Err(BacklightError::ReadMaxBrightness),
        Some(t) => match sysfs_number(t) {
            None => Err(BacklightError::ParseMaxBrightness),
            Some(max) => if max == 0 {
                Err(BacklightError::ZeroMaxBrightness)
            } else {
                Ok(BacklightView {
                    id: "backlight-"@ + backlight_name(path),
                    name: backlight_name(path),
                    path,
                    max_brightness: max as u32,
                    cached_percent: 0,
                })
            },
        },
    }
}

/// A write to a sysfs file: the file and the text to write.
#[derive(Debug)]
pub struct SysfsWrite {
    pub file: String,
    pub contents: String,
}

impl Backlight {
    /// The path of the backlight to open: the override where one is given,
    /// otherwise the best-scoring directory entry, if any scores above 0.
    pub fn detect(override_path: &str, candidates: &Vec<BacklightCandidate>) -> (r: Option<String>)
        ensures
            override_path@.len() > 0 ==> opt_text(r) == Some(override_path@),
            override_path@.len() == 0 ==> match best_candidate(priorities(candidates@)) {
                Some(i) => opt_text(r) == Some(candidates@[i].path@),
                None => r is None,
            },
    {
        if override_path.unicode_len() > 0 {
            return Some(String::from_str(override_path));
        }
        let chosen = select_backlight(candidates);
        proof { lemma_best_candidate(priorities(candidates@)); }
        match chosen {
            Some(i) => Some(candidates[i].path.clone()),
            None => None,
        }
    }

    /// Opens the backlight at `path`, given what its `max_brightness` file
    /// held. Its cached brightness starts at 0; see [`Backlight::load_initial_brightness`].
    pub fn from_path(path: &str, max_reading: Option<String>) -> (r: Result<Backlight, BacklightError>)
        ensures
            match open_spec(path@, opt_text(max_reading)) {
                Ok(v) => r matches Ok(b) && b@ == v,
                Err(e) => r == Err::<Backlight, BacklightError>(e),
            },
    {
        let name = match path_file_name(path) {
            Some(n) => n,
            None => String::from_str("backlight"),
        };
        let text = match max_reading {
            Some(t) => t,
            None => return Err(BacklightError::ReadMaxBrightness),
        };
        let max = match parse_sysfs_number(text.as_str()) {
            Some(m) => m,
            None => return Err(BacklightError::ParseMaxBrightness),
        };
        if max == 0 {
            return Err(BacklightError::ZeroMaxBrightness);
        }
        let mut id = String::from_str("backlight-");
        id.append(name.as_str());
        Ok(Backlight { id: MonitorId(id), name, path: String::from_str(path), max_brightness: max, cached_percent: 0 })
    }

    /// The `brightness` file of this backlight.
    pub fn brightness_file(&self) -> (r: String)
        ensures
            r@ == path_join_spec(self@.path, "brightness"@),
    {
        proof { reveal_strlit("brightness"); }
        path_join(self.path.as_str(), "brightness")
    }

    /// Whether a reading of the `brightness` file converts without overflow.
    pub fn reading_fits(reading: &Option<String>) -> (b: bool)
        ensures
            b == reading_fits_spec(opt_text(*reading)),
    {
        match reading {
            None => true,
            Some(t) => match parse_sysfs_number(t.as_str()) {
                Some(raw) => raw <= 42949672,
                None => true,
            },
        }
    }

    fn read_percent(&self, reading: Option<String>) -> (r: Result<u8, BacklightError>)
        requires
            self@.wf(),
            reading_fits_spec(opt_text(reading)),
        ensures
            r == percent_from_reading(opt_text(reading), self@.max_brightness as nat),
    {
        let text = match reading {
            Some(t) => t,
            None => return Err(BacklightError::ReadBrightness),
        };
        let raw = match parse_sysfs_number(text.as_str()) {
            Some(v) => v,
            None => return Err(BacklightError::ParseBrightness),
        };
        let p = raw * 100 / self.max_brightness;
        if p > 100 { Ok(100) } else { Ok(p as u8) }
    }

    /// Fills the cache of a freshly opened backlight from a reading of its
    /// `brightness` file; an unreadable or unparsable file leaves 0.
    pub fn load_initial_brightness(&mut self, reading: Option<String>)
        requires
            old(self)@.wf(),
            reading_fits_spec(opt_text(reading)),
        ensures
            final(self)@ == (BacklightView {
                cached_percent: match percent_from_reading(opt_text(reading), old(self)@.max_brightness as nat) {
                    Ok(p) => p,
                    Err(_) => 0,
                },
                ..old(self)@
            }),
            final(self)@.wf(),
    {
        self.cached_percent = match self.read_percent(reading) {
            Ok(p) => p,
            Err(_) => 0,
        };
    }

    /// The current brightness, from a fresh reading of the `brightness`
    /// file; on success the cache holds it.
    pub fn get_percent(&mut self, reading: Option<String>) -> (r: Result<u8, BacklightError>)
        requires
            old(self)@.wf(),
            reading_fits_spec(opt_text(reading)),
        ensures
            r == percent_from_reading(opt_text(reading), old(self)@.max_brightness as nat),
            final(self)@ == (match r {
                Ok(p) => BacklightView { cached_percent: p, ..old(self)@ },
                Err(_) => old(self)@,
            }),
            final(self)@.wf(),
    {
        let p = self.read_percent(reading)?;
        self.cached_percent = p;
        Ok(p)
    }

    /// Whether [`Backlight::brightness_write`] of `percent` computes without overflow.
    pub fn write_fits(&self, percent: u8) -> (b: bool)
        ensures
            b == self@.write_fits(percent),
    {
        let p: u64 = if percent > 100 { 100 } else { percent as u64 };
        let m: u64 = self.max_brightness as u64;
        assert(p * m <= 100 * 0xffff_ffff) by (nonlinear_arith)
            requires p <= 100, m <= 0xffff_ffff;
        p * m <= 0xffff_ffff
    }

    /// The write that sets `percent` (at most 100): the raw value
    /// `percent * max_brightness / 100` to the `brightness` file.
    pub fn brightness_write(&self, percent: u8) -> (w: SysfsWrite)
        requires
            self@.write_fits(percent),
        ensures
            w.file@ == path_join_spec(self@.path, "brightness"@),
            w.contents@ == decimal(raw_of_percent(percent, self@.max_brightness as nat)),
    {
        let p: u32 = if percent > 100 { 100 } else { percent as u32 };
        let raw = p * self.max_brightness / 100;
        SysfsWrite { file: self.brightness_file(), contents: format_decimal(raw as u64) }
    }

    /// Records the outcome of the write of [`Backlight::brightness_write`]:
    /// on success the cache holds `percent` (at most 100); on failure nothing changes.
    pub fn set_percent(&mut self, percent: u8, written: bool) -> (r: Result<(), BacklightError>)
        requires
            old(self)@.wf(),
        ensures
            written ==> r is Ok && final(self)@ == (BacklightView { cached_percent: clamp_percent(percent), ..old(self)@ }),
            !written ==> final(self)@ == old(self)@,
            !written ==> (r matches Err(BacklightError::WriteBrightness { path }) && path@ == old(self)@.path),
            final(self)@.wf(),
    {
        if !written {
            return Err(BacklightError::WriteBrightness { path: self.path.clone() });
        }
        self.cached_percent = if percent > 100 { 100 } else { percent };
        Ok(())
    }

    /// The panel as `list` shows it.
    pub fn info(&self) -> (r: MonitorInfo)
        ensures
            r@ == (MonitorInfoView {
                id: self@.id,
                name: self@.name,
                kind: MonitorKind::Backlight,
                brightness_percent: self@.cached_percent,
            }),
    {
        MonitorInfo {
            id: self.id.clone(),
            name: self.name.clone(),
            kind: MonitorKind::Backlight,
            brightness_percent: self.cached_percent,
        }
    }

    /// The panel's cached brightness as `get` reports it.
    pub fn status(&self) -> (r: MonitorStatus)
        ensures
            r@ == (MonitorStatusView {
                id: self@.id,
                name: self@.name,
                brightness_percent: self@.cached_percent,
            }),
    {
        MonitorStatus {
            id: self.id.clone(),
            name: self.name.clone(),
            brightness_percent: self.cached_percent,
        }
    }

    /// The identifier.
    pub fn id(&self) -> (r: &MonitorId)
        ensures
            r@ == self@.id,
    {
        &self.id
    }

    /// The name.
    pub fn name(&self) -> (r: &String)
        ensures
            r@ == self@.name,
    {
        &self.name
    }

    /// The cached brightness.
    pub fn cached_percent(&self) -> (p: u8)
        ensures
            p == self@.cached_percent,
    {
        self.cached_percent
    }
}

} // verus!
