//! The daemon's set of monitors: the DDC/CI monitors and the backlight that
//! the last scan found, with their cached brightness, and the operations on
//! them that requests trigger.
//!
//! Device reads and writes are performed by the caller between the steps of
//! an operation: a step says what to read or write, the next step takes what
//! came of it.

use vstd::prelude::*;
use vstd::string::*;
use crate::backlight::{Backlight, BacklightError, BacklightView, SysfsWrite, backlight_error_text,
    percent_from_reading, reading_fits_spec};
use crate::config::{Config, ConfigView};
use crate::ddc_monitor::{DdcMonitor, DdcMonitorError, DdcMonitorView, DisplayIdentity, VcpReading,
    ddc_error_text, from_display_spec};
use crate::monitor::{MonitorId, MonitorInfo, MonitorInfoView, MonitorKind, MonitorStatus,
    MonitorStatusView, ids_view, infos_view, statuses_view};
use crate::protocol::{BrightnessOp, Target, TargetView};
use crate::text::{decimal, format_decimal, opt_text};

verus! {

/// The brightness that `op` gives a monitor now at `current`: the set value,
/// or `current` raised or lowered (saturating at 0 and 255), then kept within
/// 1 and 100 -- a monitor never goes completely dark.
pub open spec fn apply_op_spec(op: BrightnessOp, current: u8) -> u8 {
    let v: int = match op {
        BrightnessOp::SetTo { percent } => percent as int,
        BrightnessOp::Increase { percent } => if current + percent > 255 { 255 } else { current + percent },
        BrightnessOp::Decrease { percent } => if current - percent < 0 { 0 } else { current - percent },
    };
    if v < 1 { 1 } else if v > 100 { 100 } else { v as u8 }
}

/// Applies a brightness adjustment to the current percentage.
pub fn apply_op(op: &BrightnessOp, current: u8) -> (r: u8)
    ensures
        r == apply_op_spec(*op, current),
        1 <= r <= 100,
{
    let value = match op {
        BrightnessOp::SetTo { percent } => *percent,
        BrightnessOp::Increase { percent } => current.saturating_add(*percent),
        BrightnessOp::Decrease { percent } => current.saturating_sub(*percent),
    };
    if value < 1 { 1 } else if value > 100 { 100 } else { value }
}

/// Laws of brightness adjustment: a result is always between 1 and 100;
/// setting a value from 1 to 100 gives that value, and setting twice is
/// setting once; increasing never lowers and decreasing never raises a
/// brightness from 1 to 100; and increasing then decreasing by the same
/// amount comes back where it started when no bound was hit; an increase or
/// decrease within the bounds moves by exactly the amount, and one past a
/// bound stops at it.
pub proof fn lemma_apply_op(op: BrightnessOp, current: u8, p: u8)
    ensures
        1 <= apply_op_spec(op, current) <= 100,
        1 <= p <= 100 ==> apply_op_spec(BrightnessOp::SetTo { percent: p }, current) == p,
        apply_op_spec(op, apply_op_spec(op, current)) == apply_op_spec(op, current) <== op is SetTo,
        1 <= current <= 100 ==> apply_op_spec(BrightnessOp::Increase { percent: p }, current) >= current,
        1 <= current <= 100 ==> apply_op_spec(BrightnessOp::Decrease { percent: p }, current) <= current,
        1 <= current && current + p <= 100 ==> apply_op_spec(
            BrightnessOp::Decrease { percent: p },
            apply_op_spec(BrightnessOp::Increase { percent: p }, current),
        ) == current,
        1 <= current + p <= 100 ==> apply_op_spec(BrightnessOp::Increase { percent: p }, current) == current + p,
        1 <= current - p <= 100 ==> apply_op_spec(BrightnessOp::Decrease { percent: p }, current) == current - p,
        current + p >= 100 ==> apply_op_spec(BrightnessOp::Increase { percent: p }, current) == 100,
        current - p <= 1 ==> apply_op_spec(BrightnessOp::Decrease { percent: p }, current) == 1,
{
}

/// Why an operation on the monitor set failed.
#[derive(Debug)]
pub enum ManagerError {
    NotFound(MonitorId),
    IndexOutOfRange(usize),
    Backlight(BacklightError),
    Ddc(DdcMonitorError),
}

/// The mathematical content of a [`ManagerError`]: its kind with what it
/// names, a backlight error by its text.
pub enum ManagerErrorView {
    NotFound(Seq<char>),
    IndexOutOfRange(usize),
    Backlight(Seq<char>),
    Ddc(DdcMonitorError),
}

impl View for ManagerError {
    type V = ManagerErrorView;

    open spec fn view(&self) -> ManagerErrorView {
        match self {
            ManagerError::NotFound(id) => ManagerErrorView::NotFound(id@),
            ManagerError::IndexOutOfRange(i) => ManagerErrorView::IndexOutOfRange(*i),
            ManagerError::Backlight(e) => ManagerErrorView::Backlight(backlight_error_text(*e)),
            ManagerError::Ddc(e) => ManagerErrorView::Ddc(*e),
        }
    }
}

/// The displayed text of an error.
pub open spec fn manager_error_text(e: ManagerErrorView) -> Seq<char> {
    match e {
        ManagerErrorView::NotFound(id) => "monitor not found: "@ + id,
        ManagerErrorView::IndexOutOfRange(i) => "monitor index "@ + decimal(i as nat) + " out of range"@,
        ManagerErrorView::Backlight(t) => t,
        ManagerErrorView::Ddc(e) => ddc_error_text(e),
    }
}

impl ManagerError {
    /// The error as it is displayed.
    pub fn message(&self) -> (r: String)
        ensures
            r@ == manager_error_text(self@),
    {
        match self {
            ManagerError::NotFound(id) => {
                let mut r = String::from_str("monitor not found: ");
                r.append(id.as_str());
                r
            },
            ManagerError::IndexOutOfRange(i) => {
                let mut r = String::from_str("monitor index ");
                let n = format_decimal(*i as u64);
                r.append(n.as_str());
                r.append(" out of range");
                r
            },
            ManagerError::Backlight(e) => e.message(),
            ManagerError::Ddc(e) => e.message(),
        }
    }
}

/// Where an identifier leads: to a DDC/CI monitor (its index), to the
/// backlight, or nowhere.
#[derive(Debug, Clone, Copy, PartialEq, Eq, Structural)]
pub enum Slot {
    Ddc(usize),
    Backlight,
    Missing,
}

/// The monitors that a scan found.
#[derive(Debug)]
pub struct MonitorManager {
    pub ddc_monitors: Vec<DdcMonitor>,
    pub backlight: Option<Backlight>,
    config: Config,
}

/// The mathematical content of a [`MonitorManager`]'s monitors.
pub struct ManagerView {
    pub ddc: Seq<DdcMonitorView>,
    pub backlight: Option<BacklightView>,
}

impl View for MonitorManager {
    type V = ManagerView;

    closed spec fn view(&self) -> ManagerView {
        ManagerView {
            ddc: self.ddc_monitors@.map_values(|m: DdcMonitor| m@),
            backlight: match self.backlight {
                Some(b) => Some(b@),
                None => None,
            },
        }
    }
}

impl ManagerView {
    /// Every monitor is well formed.
    pub open spec fn wf(self) -> bool {
        &&& forall|i: int| 0 <= i < self.ddc.len() ==> (#[trigger] self.ddc[i]).wf()
        &&& self.backlight matches Some(b) ==> b.wf()
    }

    /// The identifiers of all monitors: the DDC/CI monitors in scan order,
    /// then the backlight.
    pub open spec fn ids(self) -> Seq<Seq<char>> {
        self.ddc.map_values(|d: DdcMonitorView| d.id) + match self.backlight {
            Some(b) => seq![b.id],
            None => Seq::empty(),
        }
    }

    /// All monitors as `list` shows them, in the order of [`ManagerView::ids`].
    pub open spec fn infos(self) -> Seq<MonitorInfoView> {
        self.ddc.map_values(|d: DdcMonitorView| MonitorInfoView {
            id: d.id,
            name: d.name,
            kind: MonitorKind::Ddc,
            brightness_percent: d.cached_percent,
        }) + match self.backlight {
            Some(b) => seq![MonitorInfoView {
                id: b.id,
                name: b.name,
                kind: MonitorKind::Backlight,
                brightness_percent: b.cached_percent,
            }],
            None => Seq::empty(),
        }
    }

    /// Where `id` leads: the first DDC/CI monitor with that identifier, else
    /// the backlight if it has it.
    pub open spec fn locate(self, id: Seq<char>) -> Slot {
        let p = ddc_position(self.ddc, id);
        if p >= 0 {
            Slot::Ddc(p as usize)
        } else if self.backlight matches Some(b) && b.id == id {
            Slot::Backlight
        } else {
            Slot::Missing
        }
    }

    /// The name shown for `id`: that of the monitor it leads to, else `id` itself.
    pub open spec fn name_of(self, id: Seq<char>) -> Seq<char> {
        match self.locate(id) {
            Slot::Ddc(i) => self.ddc[i as int].name,
            Slot::Backlight => self.backlight->0.name,
            Slot::Missing => id,
        }
    }

    /// The status of `id` at brightness `percent`.
    pub open spec fn status_of(self, id: Seq<char>, percent: u8) -> MonitorStatusView {
        MonitorStatusView { id, name: self.name_of(id), brightness_percent: percent }
    }

    /// The status of a DDC/CI monitor's identifier from its cache.
    pub open spec fn cached_status(self, id: Seq<char>) -> MonitorStatusView {
        self.status_of(id, self.ddc[self.locate(id)->Ddc_0 as int].cached_percent)
    }

    /// Whether `w` is a write that this monitor set can take.
    pub open spec fn valid_write(self, w: PendingWrite) -> bool {
        match w.slot {
            Slot::Ddc(i) => i < self.ddc.len(),
            Slot::Backlight => self.backlight is Some,
            Slot::Missing => false,
        }
    }

    /// Whether the raw value of `w` computes without overflow.
    pub open spec fn write_fits(self, w: PendingWrite) -> bool {
        w.slot is Backlight ==> self.backlight->0.write_fits(w.percent)
    }

    /// The monitor set after `w` succeeded: its monitor caches `w.percent`
    /// (at most 100).
    pub open spec fn after_write(self, w: PendingWrite) -> ManagerView {
        let p = if w.percent > 100 { 100u8 } else { w.percent };
        match w.slot {
            Slot::Ddc(i) => ManagerView {
                ddc: self.ddc.update(i as int, DdcMonitorView { cached_percent: p, ..self.ddc[i as int] }),
                ..self
            },
            Slot::Backlight => ManagerView {
                backlight: Some(BacklightView { cached_percent: p, ..self.backlight->0 }),
                ..self
            },
            Slot::Missing => self,
        }
    }

    /// The monitor set after the backlight cached `p`.
    pub open spec fn with_backlight_percent(self, p: u8) -> ManagerView {
        ManagerView { backlight: Some(BacklightView { cached_percent: p, ..self.backlight->0 }), ..self }
    }

    /// The statuses of the DDC/CI monitors from their caches, in order.
    pub open spec fn ddc_statuses(self) -> Seq<MonitorStatusView> {
        self.ddc.map_values(|d: DdcMonitorView| self.cached_status(d.id))
    }

    /// Whether the backlight is present and no DDC/CI monitor shares its
    /// identifier, so that reaching it needs a reading.
    pub open spec fn backlight_reached(self) -> bool {
        self.backlight matches Some(b) && ddc_position(self.ddc, b.id) < 0
    }

    /// The brightness a fade starts from for `id`: the cache of the monitor
    /// it leads to, or 50.
    pub open spec fn fade_start(self, id: Seq<char>) -> u8 {
        match self.locate(id) {
            Slot::Ddc(i) => self.ddc[i as int].cached_percent,
            Slot::Backlight => self.backlight->0.cached_percent,
            Slot::Missing => 50,
        }
    }
}

/// The index of the first monitor in `ddc` with identifier `id`, -1 if none.
pub open spec fn ddc_position(ddc: Seq<DdcMonitorView>, id: Seq<char>) -> int
    decreases ddc.len(),
{
    if ddc.len() == 0 {
        -1
    } else {
        let p = ddc_position(ddc.drop_last(), id);
        if p >= 0 {
            p
        } else if ddc.last().id == id {
            ddc.len() - 1
        } else {
            -1
        }
    }
}

/// `ddc_position` finds the first match, and -1 means there is none.
pub proof fn lemma_ddc_position(ddc: Seq<DdcMonitorView>, id: Seq<char>)
    ensures
        ddc_position(ddc, id) >= 0 ==> {
            let p = ddc_position(ddc, id);
            &&& p < ddc.len()
            &&& ddc[p].id == id
            &&& forall|j: int| 0 <= j < p ==> ddc[j].id != id
        },
        ddc_position(ddc, id) < 0 ==> {
            &&& ddc_position(ddc, id) == -1
            &&& forall|j: int| 0 <= j < ddc.len() ==> ddc[j].id != id
        },
    decreases ddc.len(),
{
    if ddc.len() > 0 {
        let q = ddc.drop_last();
        lemma_ddc_position(q, id);
        assert(forall|j: int| 0 <= j < q.len() ==> q[j] == ddc[j]);
    }
}

/// A brightness write that a step asks for: which monitor, and the
/// percentage it is set to.
#[derive(Debug, Clone, Copy, PartialEq, Eq, Structural)]
pub struct PendingWrite {
    pub slot: Slot,
    pub percent: u8,
}

/// The device write behind a [`PendingWrite`]: VCP feature 0x10 of the DDC/CI
/// monitor at `index` set to `value`, or a sysfs file written.
#[derive(Debug)]
pub enum DeviceWrite {
    Ddc { index: usize, value: u16 },
    Sysfs(SysfsWrite),
}

/// What comes after the first step of reading statuses: the statuses, or an
/// error; or a reading of the backlight's `brightness` file, to be given to
/// [`MonitorManager::finish_status`] with the statuses gathered so far.
#[derive(Debug)]
pub enum StatusStep {
    Done(Result<Vec<MonitorStatus>, ManagerError>),
    NeedBacklightReading(Vec<MonitorStatus>),
}

/// What comes after a step of applying a brightness adjustment: a write to
/// perform, a reading of the backlight's `brightness` file to take, or failure.
#[derive(Debug)]
pub enum ApplyStep {
    Write(PendingWrite),
    NeedBacklightReading,
    Failed(ManagerError),
}

/// The mathematical content of a result holding statuses.
pub open spec fn statuses_result_view(r: Result<Vec<MonitorStatus>, ManagerError>) -> Result<Seq<MonitorStatusView>, ManagerErrorView> {
    match r {
        Ok(v) => Ok(statuses_view(v@)),
        Err(e) => Err(e@),
    }
}

/// The mathematical content of a result holding one status.
pub open spec fn status_result_view(r: Result<MonitorStatus, ManagerError>) -> Result<MonitorStatusView, ManagerErrorView> {
    match r {
        Ok(v) => Ok(v@),
        Err(e) => Err(e@),
    }
}

/// What [`MonitorManager::get_status`] gives for `target`.
pub open spec fn status_plan(m: ManagerView, target: TargetView) -> (Option<Result<Seq<MonitorStatusView>, ManagerErrorView>>, Seq<MonitorStatusView>) {
    match target {
        TargetView::All => if m.backlight_reached() {
            (None, m.ddc_statuses())
        } else {
            (Some(Ok(m.ids().map_values(|id: Seq<char>| m.cached_status(id)))), Seq::empty())
        },
        TargetView::ById(id) => single_status_plan(m, id),
        TargetView::ByIndex(i) => if i < m.ids().len() {
            single_status_plan(m, m.ids()[i as int])
        } else {
            (Some(Err(ManagerErrorView::IndexOutOfRange(i))), Seq::empty())
        },
    }
}

/// The first step of reading the status of one monitor: done (`Some`) or
/// waiting for a reading of the backlight (`None`).
pub open spec fn single_status_plan(m: ManagerView, id: Seq<char>) -> (Option<Result<Seq<MonitorStatusView>, ManagerErrorView>>, Seq<MonitorStatusView>) {
    match m.locate(id) {
        Slot::Ddc(_) => (Some(Ok(seq![m.cached_status(id)])), Seq::empty()),
        Slot::Backlight => (None, Seq::empty()),
        Slot::Missing => (Some(Err(ManagerErrorView::NotFound(id))), Seq::empty()),
    }
}

/// The view of a status step: `Some` result when done, and the statuses
/// gathered so far when waiting.
pub open spec fn status_step_view(s: StatusStep) -> (Option<Result<Seq<MonitorStatusView>, ManagerErrorView>>, Seq<MonitorStatusView>) {
    match s {
        StatusStep::Done(r) => (Some(statuses_result_view(r)), Seq::empty()),
        StatusStep::NeedBacklightReading(v) => (None, statuses_view(v@)),
    }
}

/// What [`MonitorManager::resolve_target`] gives for `target`.
pub open spec fn resolve_spec(m: ManagerView, target: TargetView) -> Result<Seq<Seq<char>>, ManagerErrorView> {
    match target {
        TargetView::All => Ok(m.ids()),
        TargetView::ById(id) => if m.locate(id) is Missing {
            Err(ManagerErrorView::NotFound(id))
        } else {
            Ok(seq![id])
        },
        TargetView::ByIndex(i) => if i < m.ids().len() {
            Ok(seq![m.ids()[i as int]])
        } else {
            Err(ManagerErrorView::IndexOutOfRange(i))
        },
    }
}

/// Builds the DDC/CI monitors of a scan from the displays found and what
/// probing each gave; displays whose probe failed are skipped.
pub open spec fn scan_spec(probes: Seq<(DisplayIdentity, Option<VcpReading>)>) -> Seq<DdcMonitorView>
    decreases probes.len(),
{
    if probes.len() == 0 {
        Seq::empty()
    } else {
        let rest = scan_spec(probes.drop_last());
        match from_display_spec(probes.last().0@, probes.last().1) {
            Ok(m) => rest.push(m),
            Err(_) => rest,
        }
    }
}

/// The DDC/CI monitors that a scan found, from the displays enumerated and
/// what probing each one's brightness gave (`None`: the probe failed).
pub fn run_scan(probes: Vec<(DisplayIdentity, Option<VcpReading>)>) -> (r: Vec<DdcMonitor>)
    ensures
        r@.map_values(|m: DdcMonitor| m@) == scan_spec(probes@),
        forall|i: int| 0 <= i < r@.len() ==> (#[trigger] r@[i]@).wf(),
{
    let mut monitors: Vec<DdcMonitor> = Vec::new();
    let mut k: usize = 0;
    while k < probes.len()
        invariant
            k <= probes.len(),
            monitors@.map_values(|m: DdcMonitor| m@) == scan_spec(probes@.take(k as int)),
            forall|i: int| 0 <= i < monitors@.len() ==> (#[trigger] monitors@[i]@).wf(),
        decreases probes.len() - k,
    {
        assert(probes@.take(k + 1).drop_last() =~= probes@.take(k as int));
        let r = DdcMonitor::from_display(&probes[k].0, probes[k].1);
        match r {
            Ok(m) => {
                monitors.push(m);
                assert(monitors@.map_values(|m: DdcMonitor| m@) =~= scan_spec(probes@.take(k as int)).push(
                    monitors@.last()@));
            },
            Err(_) => {},
        }
        k = k + 1;
    }
    assert(probes@.take(k as int) =~= probes@);
    monitors
}

impl MonitorManager {
    /// A monitor set with no monitors, until the first scan.
    pub fn new(config: Config) -> (r: MonitorManager)
        ensures
            r@.ddc.len() == 0,
            r@.backlight is None,
            r.config_view() == config@,
    {
        MonitorManager { ddc_monitors: Vec::new(), backlight: None, config }
    }

    /// The configuration it was made with.
    pub closed spec fn config_view(&self) -> ConfigView {
        self.config@
    }

    /// A copy of the configuration, for running a scan without holding the
    /// monitor set.
    pub fn config(&self) -> (r: Config)
        ensures
            r@ == self.config_view(),
    {
        self.config.clone()
    }

    /// Stores the results of a completed scan and returns the number of
    /// DDC/CI monitors found.
    pub fn apply_scan_results(&mut self, monitors: Vec<DdcMonitor>, backlight: Option<Backlight>) -> (n: usize)
        requires
            forall|i: int| 0 <= i < monitors@.len() ==> (#[trigger] monitors@[i]@).wf(),
            backlight matches Some(b) ==> b@.wf(),
        ensures
            final(self)@.ddc == monitors@.map_values(|m: DdcMonitor| m@),
            final(self)@.backlight == (match backlight { Some(b) => Some(b@), None => None::<BacklightView> }),
            final(self).config_view() == old(self).config_view(),
            n == monitors@.len(),
            final(self)@.wf(),
    {
        self.ddc_monitors = monitors;
        self.backlight = backlight;
        self.ddc_monitors.len()
    }

    /// The identifiers of all monitors.
    pub fn all_ids(&self) -> (r: Vec<MonitorId>)
        ensures
            ids_view(r@) == self@.ids(),
    {
        let mut ids: Vec<MonitorId> = Vec::new();
        let mut i: usize = 0;
        while i < self.ddc_monitors.len()
            invariant
                i <= self.ddc_monitors@.len(),
                ids_view(ids@) == self@.ddc.take(i as int).map_values(|d: DdcMonitorView| d.id),
            decreases self.ddc_monitors@.len() - i,
        {
            let ghost before = ids@;
            ids.push(self.ddc_monitors[i].id().clone());
            assert(self@.ddc[i as int] == self.ddc_monitors@[i as int]@);
            assert(self@.ddc.take(i + 1) =~= self@.ddc.take(i as int).push(self@.ddc[i as int]));
            assert(ids@ =~= before.push(ids@.last()));
            assert(ids@.last()@ == self@.ddc[i as int].id);
            assert(ids_view(ids@) =~= ids_view(before).push(self@.ddc[i as int].id));
            i = i + 1;
            assert(ids_view(ids@) =~= self@.ddc.take(i as int).map_values(|d: DdcMonitorView| d.id));
        }
        assert(self@.ddc.take(i as int) =~= self@.ddc);
        if let Some(bl) = &self.backlight {
            ids.push(bl.id().clone());
        }
        assert(ids_view(ids@) =~= self@.ids());
        ids
    }

    /// All monitors as `list` shows them.
    pub fn list_monitors(&self) -> (r: Vec<MonitorInfo>)
        ensures
            infos_view(r@) == self@.infos(),
    {
        let mut list: Vec<MonitorInfo> = Vec::new();
        let mut i: usize = 0;
        while i < self.ddc_monitors.len()
            invariant
                i <= self.ddc_monitors@.len(),
                infos_view(list@) == self@.infos().take(i as int),
            decreases self.ddc_monitors@.len() - i,
        {
            let ghost before = list@;
            list.push(self.ddc_monitors[i].info());
            assert(self@.ddc[i as int] == self.ddc_monitors@[i as int]@);
            assert(list@ =~= before.push(list@.last()));
            assert(self@.infos()[i as int] == list@.last()@);
            assert(infos_view(list@) =~= infos_view(before).push(list@.last()@));
            assert(self@.infos().take(i + 1) =~= self@.infos().take(i as int).push(self@.infos()[i as int]));
            i = i + 1;
            assert(infos_view(list@) =~= self@.infos().take(i as int));
        }
        assert(self@.infos().take(i as int) =~= self@.ddc.map_values(|d: DdcMonitorView| MonitorInfoView {
            id: d.id,
            name: d.name,
            kind: MonitorKind::Ddc,
            brightness_percent: d.cached_percent,
        }));
        let ghost before = list@;
        if let Some(bl) = &self.backlight {
            list.push(bl.info());
            assert(list@ =~= before.push(list@.last()));
        }
        assert(infos_view(list@) =~= self@.infos());
        list
    }

    fn find_ddc(&self, id: &MonitorId) -> (r: Option<usize>)
        ensures
            r matches Some(i) ==> ddc_position(self@.ddc, id@) == i,
            r is None ==> ddc_position(self@.ddc, id@) == -1,
    {
        let mut i: usize = 0;
        while i < self.ddc_monitors.len()
            invariant
                i <= self.ddc_monitors@.len(),
                ddc_position(self@.ddc.take(i as int), id@) == -1,
            decreases self.ddc_monitors@.len() - i,
        {
            assert(self@.ddc.take(i + 1).drop_last() =~= self@.ddc.take(i as int));
            if *self.ddc_monitors[i].id() == *id {
                assert(ddc_position(self@.ddc.take(i + 1), id@) == i);
                proof { lemma_prefix_position(self@.ddc, id@, i + 1); }
                return Some(i);
            }
            i = i + 1;
        }
        assert(self@.ddc.take(i as int) =~= self@.ddc);
        None
    }

    /// Where `id` leads.
    pub fn locate(&self, id: &MonitorId) -> (r: Slot)
        ensures
            r == self@.locate(id@),
            r matches Slot::Ddc(i) ==> i < self@.ddc.len() && self@.ddc[i as int].id == id@,
            r is Backlight ==> (self@.backlight matches Some(b) && b.id == id@),
    {
        proof { lemma_ddc_position(self@.ddc, id@); }
        match self.find_ddc(id) {
            Some(i) => Slot::Ddc(i),
            None => match &self.backlight {
                Some(bl) => if *bl.id() == *id { Slot::Backlight } else { Slot::Missing },
                None => Slot::Missing,
            },
        }
    }

    fn monitor_name(&self, id: &MonitorId) -> (r: String)
        ensures
            r@ == self@.name_of(id@),
    {
        match self.locate(id) {
            Slot::Ddc(i) => self.ddc_monitors[i].name().clone(),
            Slot::Backlight => match &self.backlight {
                Some(bl) => bl.name().clone(),
                None => id.0.clone(),
            },
            Slot::Missing => id.0.clone(),
        }
    }

    /// The identifiers that a target names: all monitors; the one with the
    /// given identifier, if there is one; or the one at the given index in
    /// [`MonitorManager::all_ids`], if it is in range.
    pub fn resolve_target(&self, target: &Target) -> (r: Result<Vec<MonitorId>, ManagerError>)
        ensures
            match resolve_spec(self@, target@) {
                Ok(ids) => r matches Ok(v) && ids_view(v@) == ids,
                Err(e) => r matches Err(x) && x@ == e,
            },
    {
        match target {
            Target::All => Ok(self.all_ids()),
            Target::ById { id } => {
                let found = self.find_ddc(id).is_some() || match &self.backlight {
                    Some(b) => *b.id() == *id,
                    None => false,
                };
                if found {
                    let v = vec![id.clone()];
                    assert(ids_view(v@) =~= seq![id@]);
                    Ok(v)
                } else {
                    Err(ManagerError::NotFound(id.clone()))
                }
            },
            Target::ByIndex { index } => {
                let ids = self.all_ids();
                if *index < ids.len() {
                    let v = vec![ids[*index].clone()];
                    assert(ids_view(v@) =~= seq![self@.ids()[*index as int]]);
                    Ok(v)
                } else {
                    Err(ManagerError::IndexOutOfRange(*index))
                }
            },
        }
    }
}

/// The error of a failed write `w`.
pub open spec fn write_failure(m: ManagerView, w: PendingWrite) -> ManagerErrorView {
    match w.slot {
        Slot::Backlight => ManagerErrorView::Backlight(
            "write brightness to "@ + m.backlight->0.path
                + "; make sure you are in the 'video' group or have a udev rule granting write access"@,
        ),
        _ => ManagerErrorView::Ddc(DdcMonitorError::SetFailed),
    }
}

/// The first step of applying `op` to `id`: the write of the adjusted
/// brightness of a DDC/CI monitor (from its cache), a reading of the
/// backlight, or failure when `id` names no monitor.
pub open spec fn apply_plan(m: ManagerView, id: Seq<char>, op: BrightnessOp) -> ApplyStepView {
    match m.locate(id) {
        Slot::Ddc(i) => ApplyStepView::Write(PendingWrite {
            slot: Slot::Ddc(i),
            percent: apply_op_spec(op, m.ddc[i as int].cached_percent),
        }),
        Slot::Backlight => ApplyStepView::NeedBacklightReading,
        Slot::Missing => ApplyStepView::Failed(ManagerErrorView::NotFound(id)),
    }
}

/// The mathematical content of an [`ApplyStep`].
pub enum ApplyStepView {
    Write(PendingWrite),
    NeedBacklightReading,
    Failed(ManagerErrorView),
}

/// The view of an [`ApplyStep`].
pub open spec fn apply_step_view(s: ApplyStep) -> ApplyStepView {
    match s {
        ApplyStep::Write(w) => ApplyStepView::Write(w),
        ApplyStep::NeedBacklightReading => ApplyStepView::NeedBacklightReading,
        ApplyStep::Failed(e) => ApplyStepView::Failed(e@),
    }
}

impl MonitorManager {
    /// The first step of setting the brightness of `id` to `percent`: the
    /// write to perform, or `NotFound` when `id` names no monitor.
    pub fn set_brightness_direct(&self, id: &MonitorId, percent: u8) -> (r: Result<PendingWrite, ManagerError>)
        ensures
            match self@.locate(id@) {
                Slot::Missing => r matches Err(e) && e@ == ManagerErrorView::NotFound(id@),
                slot => r == Ok::<PendingWrite, ManagerError>(PendingWrite { slot, percent }),
            },
            r matches Ok(w) ==> self@.valid_write(w),
    {
        match self.locate(id) {
            Slot::Missing => Err(ManagerError::NotFound(id.clone())),
            slot => Ok(PendingWrite { slot, percent }),
        }
    }

    /// Whether the device value of `w` computes without overflow.
    pub fn write_fits(&self, w: &PendingWrite) -> (b: bool)
        requires
            self@.valid_write(*w),
        ensures
            b == self@.write_fits(*w),
    {
        match w.slot {
            Slot::Backlight => match &self.backlight {
                Some(bl) => bl.write_fits(w.percent),
                None => true,
            },
            _ => true,
        }
    }

    /// The device write that performs `w`: for a DDC/CI monitor its VCP
    /// brightness value, for the backlight the text of its raw value to its
    /// `brightness` file.
    pub fn device_write(&self, w: &PendingWrite) -> (d: DeviceWrite)
        requires
            self@.valid_write(*w),
            self@.write_fits(*w),
        ensures
            match w.slot {
                Slot::Ddc(i) => d == (DeviceWrite::Ddc {
                    index: i,
                    value: ((if w.percent > 100 { 100 } else { w.percent }) * self@.ddc[i as int].max_value / 100) as u16,
                }),
                _ => d matches DeviceWrite::Sysfs(f)
                    && f.file@ == crate::text::path_join_spec(self@.backlight->0.path, "brightness"@)
                    && f.contents@ == decimal(crate::backlight::raw_of_percent(w.percent, self@.backlight->0.max_brightness as nat)),
            },
    {
        match w.slot {
            Slot::Ddc(i) => DeviceWrite::Ddc { index: i, value: self.ddc_monitors[i].brightness_value(w.percent) },
            _ => match &self.backlight {
                Some(bl) => DeviceWrite::Sysfs(bl.brightness_write(w.percent)),
                None => DeviceWrite::Ddc { index: 0, value: 0 },
            },
        }
    }

    /// Records whether the device write of `w` succeeded: on success the
    /// monitor caches the new brightness, on failure nothing changes.
    pub fn complete_write(&mut self, w: &PendingWrite, written: bool) -> (r: Result<(), ManagerError>)
        requires
            old(self)@.wf(),
            old(self)@.valid_write(*w),
        ensures
            written ==> r is Ok && final(self)@ == old(self)@.after_write(*w),
            !written ==> final(self)@ == old(self)@ && (r matches Err(e) && e@ == write_failure(old(self)@, *w)),
            final(self)@.wf(),
            final(self).config_view() == old(self).config_view(),
    {
        let ghost m0 = self@;
        match w.slot {
            Slot::Ddc(i) => {
                let res = self.ddc_monitors[i].set_percent(w.percent, written);
                proof {
                    assert(self@.ddc =~= (if written { m0.after_write(*w).ddc } else { m0.ddc }));
                }
                match res {
                    Ok(()) => Ok(()),
                    Err(e) => Err(ManagerError::Ddc(e)),
                }
            },
            _ => {
                let mut bl = self.backlight.take().unwrap();
                let res = bl.set_percent(w.percent, written);
                self.backlight = Some(bl);
                match res {
                    Ok(()) => Ok(()),
                    Err(e) => Err(ManagerError::Backlight(e)),
                }
            },
        }
    }

    /// The first step of reading the statuses of a target. Statuses come
    /// from the caches, except the backlight's, which needs a reading of its
    /// `brightness` file; as the backlight comes last, the reading ends the
    /// operation (see [`MonitorManager::finish_status`]).
    pub fn get_status(&self, target: &Target) -> (r: StatusStep)
        ensures
            status_step_view(r) == status_plan(self@, target@),
    {
        match target {
            Target::All => {
                let mut statuses: Vec<MonitorStatus> = Vec::new();
                let mut i: usize = 0;
                while i < self.ddc_monitors.len()
                    invariant
                        i <= self.ddc_monitors@.len(),
                        self@.ddc.len() == self.ddc_monitors@.len(),
                        statuses_view(statuses@) == self@.ddc_statuses().take(i as int),
                    decreases self.ddc_monitors@.len() - i,
                {
                    let id = self.ddc_monitors[i].id();
                    assert(self@.ddc[i as int] == self.ddc_monitors@[i as int]@);
                    proof { lemma_ddc_position(self@.ddc, id@); }
                    let s = self.cached_status(id);
                    let ghost before = statuses@;
                    statuses.push(s);
                    assert(self@.ddc[i as int] == self.ddc_monitors@[i as int]@);
                    assert(statuses_view(statuses@) =~= statuses_view(before).push(s@));
                    assert(self@.ddc_statuses().take(i + 1) =~= self@.ddc_statuses().take(i as int).push(
                        self@.ddc_statuses()[i as int]));
                    i = i + 1;
                }
                assert(self@.ddc_statuses().take(i as int) =~= self@.ddc_statuses());
                match &self.backlight {
                    Some(bl) => {
                        match self.find_ddc(bl.id()) {
                            None => StatusStep::NeedBacklightReading(statuses),
                            Some(_) => {
                                let s = self.cached_status(bl.id());
                                let ghost before = statuses@;
                                statuses.push(s);
                                assert(statuses_view(statuses@) =~= statuses_view(before).push(s@));
                                assert(self@.ids().map_values(|id: Seq<char>| self@.cached_status(id))
                                    =~= self@.ddc_statuses().push(s@));
                                StatusStep::Done(Ok(statuses))
                            },
                        }
                    },
                    None => {
                        assert(self@.ids().map_values(|id: Seq<char>| self@.cached_status(id))
                            =~= self@.ddc_statuses());
                        StatusStep::Done(Ok(statuses))
                    },
                }
            },
            Target::ById { id } => self.single_status(id),
            Target::ByIndex { index } => {
                let ids = self.all_ids();
                if *index < ids.len() {
                    self.single_status(&ids[*index])
                } else {
                    StatusStep::Done(Err(ManagerError::IndexOutOfRange(*index)))
                }
            },
        }
    }

    /// The status of a DDC/CI monitor's identifier from its cache.
    fn cached_status(&self, id: &MonitorId) -> (s: MonitorStatus)
        requires
            self@.locate(id@) is Ddc,
        ensures
            s@ == self@.cached_status(id@),
    {
        match self.locate(id) {
            Slot::Ddc(i) => MonitorStatus {
                id: id.clone(),
                name: self.ddc_monitors[i].name().clone(),
                brightness_percent: self.ddc_monitors[i].cached_percent(),
            },
            _ => MonitorStatus { id: id.clone(), name: id.0.clone(), brightness_percent: 0 },
        }
    }

    fn single_status(&self, id: &MonitorId) -> (r: StatusStep)
        ensures
            status_step_view(r) == single_status_plan(self@, id@),
    {
        match self.locate(id) {
            Slot::Ddc(_) => {
                let s = self.cached_status(id);
                let v = vec![s];
                assert(statuses_view(v@) =~= seq![s@]);
                StatusStep::Done(Ok(v))
            },
            Slot::Backlight => {
                let v: Vec<MonitorStatus> = Vec::new();
                assert(statuses_view(v@) =~= Seq::<MonitorStatusView>::empty());
                StatusStep::NeedBacklightReading(v)
            },
            Slot::Missing => StatusStep::Done(Err(ManagerError::NotFound(id.clone()))),
        }
    }

    /// The last step of reading statuses: the backlight's status from a
    /// reading of its `brightness` file (`None`: the read failed), after the
    /// statuses gathered so far. A good reading is cached.
    pub fn finish_status(&mut self, gathered: Vec<MonitorStatus>, reading: Option<String>) -> (r: Result<Vec<MonitorStatus>, ManagerError>)
        requires
            old(self)@.wf(),
            old(self)@.backlight is Some,
            reading_fits_spec(opt_text(reading)),
        ensures
            match percent_from_reading(opt_text(reading), old(self)@.backlight->0.max_brightness as nat) {
                Ok(p) => final(self)@ == old(self)@.with_backlight_percent(p)
                    && statuses_result_view(r) == Ok::<Seq<MonitorStatusView>, ManagerErrorView>(statuses_view(gathered@).push(
                        MonitorStatusView {
                            id: old(self)@.backlight->0.id,
                            name: old(self)@.backlight->0.name,
                            brightness_percent: p,
                        })),
                Err(e) => final(self)@ == old(self)@
                    && statuses_result_view(r) == Err::<Seq<MonitorStatusView>, ManagerErrorView>(
                        ManagerErrorView::Backlight(backlight_error_text(e))),
            },
            final(self)@.wf(),
            final(self).config_view() == old(self).config_view(),
    {
        let mut gathered = gathered;
        let mut bl = self.backlight.take().unwrap();
        let res = bl.get_percent(reading);
        let id = bl.id().clone();
        let name = bl.name().clone();
        self.backlight = Some(bl);
        match res {
            Ok(p) => {
                let ghost before = gathered@;
                gathered.push(MonitorStatus { id, name, brightness_percent: p });
                assert(statuses_view(gathered@) =~= statuses_view(before).push(gathered@.last()@));
                Ok(gathered)
            },
            Err(e) => Err(ManagerError::Backlight(e)),
        }
    }

    /// The first step of applying `op` to the monitor `id`.
    pub fn apply_to_monitor(&self, id: &MonitorId, op: &BrightnessOp) -> (r: ApplyStep)
        ensures
            apply_step_view(r) == apply_plan(self@, id@, *op),
            r matches ApplyStep::Write(w) ==> self@.valid_write(w),
    {
        match self.locate(id) {
            Slot::Ddc(i) => ApplyStep::Write(PendingWrite {
                slot: Slot::Ddc(i),
                percent: apply_op(op, self.ddc_monitors[i].cached_percent()),
            }),
            Slot::Backlight => ApplyStep::NeedBacklightReading,
            Slot::Missing => ApplyStep::Failed(ManagerError::NotFound(id.clone())),
        }
    }

    /// The step after reading the backlight's `brightness` file while
    /// applying `op`: a good reading is cached and the adjusted brightness
    /// is to be written; a failed one ends the operation.
    pub fn continue_apply(&mut self, op: &BrightnessOp, reading: Option<String>) -> (r: ApplyStep)
        requires
            old(self)@.wf(),
            old(self)@.backlight is Some,
            reading_fits_spec(opt_text(reading)),
        ensures
            match percent_from_reading(opt_text(reading), old(self)@.backlight->0.max_brightness as nat) {
                Ok(p) => final(self)@ == old(self)@.with_backlight_percent(p)
                    && apply_step_view(r) == ApplyStepView::Write(PendingWrite {
                        slot: Slot::Backlight,
                        percent: apply_op_spec(*op, p),
                    }),
                Err(e) => final(self)@ == old(self)@
                    && apply_step_view(r) == ApplyStepView::Failed(ManagerErrorView::Backlight(backlight_error_text(e))),
            },
            r matches ApplyStep::Write(w) ==> final(self)@.valid_write(w),
            final(self)@.wf(),
            final(self).config_view() == old(self).config_view(),
    {
        let mut bl = self.backlight.take().unwrap();
        let res = bl.get_percent(reading);
        self.backlight = Some(bl);
        match res {
            Ok(p) => ApplyStep::Write(PendingWrite { slot: Slot::Backlight, percent: apply_op(op, p) }),
            Err(e) => ApplyStep::Failed(ManagerError::Backlight(e)),
        }
    }

    /// The last step of applying an adjustment to `id`: whether the write
    /// `w` succeeded, and the status reported for it.
    pub fn finish_apply(&mut self, id: &MonitorId, w: &PendingWrite, written: bool) -> (r: Result<MonitorStatus, ManagerError>)
        requires
            old(self)@.wf(),
            old(self)@.valid_write(*w),
        ensures
            written ==> final(self)@ == old(self)@.after_write(*w)
                && status_result_view(r) == Ok::<MonitorStatusView, ManagerErrorView>(
                    old(self)@.status_of(id@, w.percent)),
            !written ==> final(self)@ == old(self)@
                && status_result_view(r) == Err::<MonitorStatusView, ManagerErrorView>(write_failure(old(self)@, *w)),
            final(self)@.wf(),
            final(self).config_view() == old(self).config_view(),
    {
        let ghost m0 = self@;
        let res = self.complete_write(w, written);
        match res {
            Ok(()) => {
                proof { lemma_name_unchanged(m0, *w, id@); }
                let name = self.monitor_name(id);
                Ok(MonitorStatus { id: id.clone(), name, brightness_percent: w.percent })
            },
            Err(e) => Err(e),
        }
    }

    /// The brightness a fade of `id` starts from: its cached brightness, or
    /// 50 when `id` names no monitor.
    pub fn fade_start_percent(&self, id: &MonitorId) -> (p: u8)
        ensures
            p == self@.fade_start(id@),
    {
        match self.locate(id) {
            Slot::Ddc(i) => self.ddc_monitors[i].cached_percent(),
            Slot::Backlight => match &self.backlight {
                Some(bl) => bl.status().brightness_percent,
                None => 50,
            },
            Slot::Missing => 50,
        }
    }
}

/// Applying an adjustment to every monitor, one after the other, in the
/// order of [`MonitorManager::all_ids`]: each one is applied with
/// [`MonitorManager::apply_to_monitor`] and its steps, and its outcome is
/// recorded in turn.
#[derive(Debug)]
pub struct ApplyAll {
    op: BrightnessOp,
    ids: Vec<MonitorId>,
    results: Vec<Result<MonitorStatus, ManagerError>>,
}

impl ApplyAll {
    /// The adjustment applied.
    pub closed spec fn op_spec(&self) -> BrightnessOp {
        self.op
    }

    /// The identifiers of the monitors, in order.
    pub closed spec fn ids_spec(&self) -> Seq<Seq<char>> {
        ids_view(self.ids@)
    }

    /// The outcomes recorded so far, in order.
    pub closed spec fn results_spec(&self) -> Seq<Result<MonitorStatusView, ManagerErrorView>> {
        self.results@.map_values(|r: Result<MonitorStatus, ManagerError>| status_result_view(r))
    }

    /// Whether no more outcomes are recorded than there are monitors.
    pub closed spec fn wf(&self) -> bool {
        self.results@.len() <= self.ids@.len()
    }

    /// The adjustment applied.
    pub fn op(&self) -> (r: BrightnessOp)
        ensures
            r == self.op_spec(),
    {
        self.op
    }

    /// The monitor whose outcome comes next, or `None` when all are recorded.
    pub fn next_target(&self) -> (r: Option<MonitorId>)
        requires
            self.wf(),
        ensures
            self.results_spec().len() < self.ids_spec().len() ==> (r matches Some(id)
                && id@ == self.ids_spec()[self.results_spec().len() as int]),
            self.results_spec().len() >= self.ids_spec().len() ==> r is None,
    {
        let k = self.results.len();
        if k < self.ids.len() {
            Some(self.ids[k].clone())
        } else {
            None
        }
    }

    /// Records the outcome for the monitor returned by [`ApplyAll::next_target`].
    pub fn record(&mut self, outcome: Result<MonitorStatus, ManagerError>)
        requires
            old(self).wf(),
            old(self).results_spec().len() < old(self).ids_spec().len(),
        ensures
            final(self).wf(),
            final(self).op_spec() == old(self).op_spec(),
            final(self).ids_spec() == old(self).ids_spec(),
            final(self).results_spec() == old(self).results_spec().push(status_result_view(outcome)),
    {
        self.results.push(outcome);
        assert(self.results_spec() =~= old(self).results_spec().push(status_result_view(outcome)));
    }

    /// The outcomes, one per monitor once all are recorded.
    pub fn into_results(self) -> (r: Vec<Result<MonitorStatus, ManagerError>>)
        ensures
            r@.map_values(|x: Result<MonitorStatus, ManagerError>| status_result_view(x)) == self.results_spec(),
    {
        self.results
    }
}

impl MonitorManager {
    /// Starts applying `op` to every monitor.
    pub fn apply_to_all(&self, op: &BrightnessOp) -> (j: ApplyAll)
        ensures
            j.wf(),
            j.op_spec() == *op,
            j.ids_spec() == self@.ids(),
            j.results_spec().len() == 0,
    {
        let j = ApplyAll { op: *op, ids: self.all_ids(), results: Vec::new() };
        assert(j.results_spec() =~= Seq::<Result<MonitorStatusView, ManagerErrorView>>::empty());
        j
    }
}

/// `list` and `all_ids` agree: the monitors listed are those identified,
/// in the same order.
pub proof fn lemma_list_matches_ids(m: ManagerView)
    ensures
        m.infos().map_values(|i: MonitorInfoView| i.id) == m.ids(),
{
    assert(m.infos().map_values(|i: MonitorInfoView| i.id) =~= m.ids());
}

/// What a read gives back of a write: once the write of `p` to the DDC/CI
/// monitor that `id` leads to has succeeded, reading the status of `id`
/// gives `p` (at most 100) from the cache, without a device read; and a
/// write leaves the monitors, their identifiers and names as they were.
pub proof fn lemma_status_after_write(m: ManagerView, id: Seq<char>, p: u8)
    requires
        m.locate(id) is Ddc,
    ensures
        ({
            let w = PendingWrite { slot: m.locate(id), percent: p };
            let m2 = m.after_write(w);
            &&& m.valid_write(w)
            &&& status_plan(m2, TargetView::ById(id)) == (
                Some(Ok::<Seq<MonitorStatusView>, ManagerErrorView>(seq![MonitorStatusView {
                    id,
                    name: m.name_of(id),
                    brightness_percent: if p > 100 { 100 } else { p },
                }])),
                Seq::<MonitorStatusView>::empty(),
            )
            &&& m2.ids() == m.ids()
        }),
{
    let w = PendingWrite { slot: m.locate(id), percent: p };
    lemma_ddc_position(m.ddc, id);
    lemma_name_unchanged(m, w, id);
    lemma_position_caches(m, w, id);
    let m2 = m.after_write(w);
    assert(m2.ids() =~= m.ids());
}

/// Reading the statuses of all monitors reports each monitor once, in the
/// order of [`MonitorManager::all_ids`], when it needs no reading; when the
/// backlight must be read, the DDC/CI monitors come first, in order, and
/// the backlight's status follows (see [`MonitorManager::finish_status`]).
pub proof fn lemma_status_all_covers_ids(m: ManagerView)
    ensures
        status_plan(m, TargetView::All).0 matches Some(Ok(v)) ==> v.len() == m.ids().len()
            && forall|i: int| 0 <= i < v.len() ==> (#[trigger] v[i]).id == m.ids()[i],
        status_plan(m, TargetView::All).0 is None ==> {
            let v = status_plan(m, TargetView::All).1;
            &&& m.backlight is Some
            &&& v.len() + 1 == m.ids().len()
            &&& forall|i: int| 0 <= i < v.len() ==> (#[trigger] v[i]).id == m.ids()[i]
            &&& m.ids().last() == m.backlight->0.id
        },
{
}

/// A write changes only a cached brightness, so names and the places that
/// identifiers lead to stay.
proof fn lemma_name_unchanged(m: ManagerView, w: PendingWrite, id: Seq<char>)
    requires
        m.valid_write(w),
    ensures
        m.after_write(w).name_of(id) == m.name_of(id),
        m.after_write(w).locate(id) == m.locate(id),
{
    lemma_position_caches(m, w, id);
    let m2 = m.after_write(w);
    match m.locate(id) {
        Slot::Ddc(i) => {
            lemma_ddc_position(m.ddc, id);
            assert(m2.ddc[i as int].name == m.ddc[i as int].name);
        },
        Slot::Backlight => {
            assert(m2.backlight->0.name == m.backlight->0.name);
        },
        Slot::Missing => {},
    }
}

proof fn lemma_position_caches(m: ManagerView, w: PendingWrite, id: Seq<char>)
    requires
        m.valid_write(w),
    ensures
        ddc_position(m.after_write(w).ddc, id) == ddc_position(m.ddc, id),
        m.after_write(w).ddc.len() == m.ddc.len(),
        forall|j: int| 0 <= j < m.ddc.len() ==> (#[trigger] m.after_write(w).ddc[j]).id == m.ddc[j].id
            && m.after_write(w).ddc[j].name == m.ddc[j].name,
{
    let a = m.after_write(w).ddc;
    lemma_same_ids_same_position(a, m.ddc, id);
}

proof fn lemma_same_ids_same_position(a: Seq<DdcMonitorView>, b: Seq<DdcMonitorView>, id: Seq<char>)
    requires
        a.len() == b.len(),
        forall|j: int| 0 <= j < a.len() ==> (#[trigger] a[j]).id == b[j].id,
    ensures
        ddc_position(a, id) == ddc_position(b, id),
    decreases a.len(),
{
    if a.len() > 0 {
        lemma_same_ids_same_position(a.drop_last(), b.drop_last(), id);
    }
}

proof fn lemma_prefix_position(ddc: Seq<DdcMonitorView>, id: Seq<char>, k: int)
    requires
        0 <= k <= ddc.len(),
        ddc_position(ddc.take(k), id) >= 0,
    ensures
        ddc_position(ddc, id) == ddc_position(ddc.take(k), id),
    decreases ddc.len() - k,
{
    if k < ddc.len() {
        assert(ddc.take(k + 1).drop_last() =~= ddc.take(k));
        lemma_prefix_position(ddc, id, k + 1);
    } else {
        assert(ddc.take(k) =~= ddc);
    }
}

/// Whether no two DDC/CI monitors share an identifier.
pub open spec fn distinct_ddc_ids(ddc: Seq<DdcMonitorView>) -> bool {
    forall|j: int, k: int| 0 <= j < k < ddc.len() ==> (#[trigger] ddc[j]).id != (#[trigger] ddc[k]).id
}

/// An identifier carried by the DDC/CI monitor at `i`, and by none before
/// it, leads to that monitor.
proof fn lemma_first_match_locates(m: ManagerView, id: Seq<char>, i: usize)
    requires
        i < m.ddc.len(),
        m.ddc[i as int].id == id,
        forall|j: int| 0 <= j < i ==> m.ddc[j].id != id,
    ensures
        ddc_position(m.ddc, id) == i,
        m.locate(id) == Slot::Ddc(i),
{
    lemma_ddc_position(m.ddc, id);
}

/// Applying an adjustment to the DDC/CI monitor at `i` (the first with that
/// identifier) starts with a write to that monitor of the adjustment of its
/// own cached brightness; applying one to the backlight starts with a reading
/// of it; an identifier of no monitor fails with `NotFound`.
pub proof fn lemma_apply_uses_own_cache(m: ManagerView, id: Seq<char>, op: BrightnessOp, i: usize)
    requires
        i < m.ddc.len(),
        m.ddc[i as int].id == id,
        forall|j: int| 0 <= j < i ==> m.ddc[j].id != id,
    ensures
        apply_plan(m, id, op) == ApplyStepView::Write(PendingWrite {
            slot: Slot::Ddc(i),
            percent: apply_op_spec(op, m.ddc[i as int].cached_percent),
        }),
{
    lemma_first_match_locates(m, id, i);
}

/// When no DDC/CI monitor carries `id`, applying an adjustment to it reads
/// the backlight first if the backlight carries `id`, and fails with
/// `NotFound(id)` otherwise.
pub proof fn lemma_apply_without_ddc_match(m: ManagerView, id: Seq<char>, op: BrightnessOp)
    requires
        forall|j: int| 0 <= j < m.ddc.len() ==> (#[trigger] m.ddc[j]).id != id,
    ensures
        (m.backlight matches Some(b) && b.id == id) ==> apply_plan(m, id, op) is NeedBacklightReading,
        !(m.backlight matches Some(b) && b.id == id) ==> apply_plan(m, id, op) == ApplyStepView::Failed(
            ManagerErrorView::NotFound(id),
        ),
{
    lemma_ddc_position(m.ddc, id);
}

/// Reading the statuses of all monitors reports every DDC/CI monitor, in
/// scan order, with its identifier and the name and cached brightness of
/// the first monitor carrying that identifier -- its own when identifiers
/// are distinct -- whether or not the backlight must still be read. (A
/// monitor set holds at most `usize::MAX` DDC/CI monitors.)
pub proof fn lemma_status_all_own_caches(m: ManagerView)
    requires
        m.ddc.len() <= usize::MAX,
    ensures
        status_plan(m, TargetView::All).0 matches Some(Ok(v)) ==> v.len() >= m.ddc.len(),
        status_plan(m, TargetView::All).0 is None ==> status_plan(m, TargetView::All).1.len() == m.ddc.len(),
        forall|i: int| #![trigger m.ddc[i]] 0 <= i < m.ddc.len() ==> {
            let v = match status_plan(m, TargetView::All).0 {
                Some(Ok(v)) => v,
                _ => status_plan(m, TargetView::All).1,
            };
            let f = ddc_position(m.ddc, m.ddc[i].id);
            &&& 0 <= f <= i
            &&& m.ddc[f].id == m.ddc[i].id
            &&& v[i] == MonitorStatusView {
                id: m.ddc[i].id,
                name: m.ddc[f].name,
                brightness_percent: m.ddc[f].cached_percent,
            }
        },
        distinct_ddc_ids(m.ddc) ==> forall|i: int| #![trigger m.ddc[i]] 0 <= i < m.ddc.len() ==> {
            let v = match status_plan(m, TargetView::All).0 {
                Some(Ok(v)) => v,
                _ => status_plan(m, TargetView::All).1,
            };
            v[i] == MonitorStatusView {
                id: m.ddc[i].id,
                name: m.ddc[i].name,
                brightness_percent: m.ddc[i].cached_percent,
            }
        },
        m.backlight is None ==> status_plan(m, TargetView::All).0 is Some,
{
    let v = match status_plan(m, TargetView::All).0 {
        Some(Ok(v)) => v,
        _ => status_plan(m, TargetView::All).1,
    };
    assert forall|i: int| #![trigger m.ddc[i]] 0 <= i < m.ddc.len() implies {
        let f = ddc_position(m.ddc, m.ddc[i].id);
        &&& 0 <= f <= i
        &&& m.ddc[f].id == m.ddc[i].id
        &&& v[i] == MonitorStatusView {
            id: m.ddc[i].id,
            name: m.ddc[f].name,
            brightness_percent: m.ddc[f].cached_percent,
        }
        &&& (distinct_ddc_ids(m.ddc) ==> f == i)
    } by {
        let id = m.ddc[i].id;
        lemma_ddc_position(m.ddc, id);
        let f = ddc_position(m.ddc, id);
        assert(m.locate(id) == Slot::Ddc(f as usize));
        assert((f as usize) as int == f);
        assert(m.name_of(id) == m.ddc[f].name);
        assert(m.cached_status(id) == (MonitorStatusView {
            id,
            name: m.ddc[f].name,
            brightness_percent: m.ddc[f].cached_percent,
        }));
        if m.backlight_reached() {
            assert(v == m.ddc_statuses());
            assert(m.ddc_statuses()[i] == m.cached_status(id));
        } else {
            assert(m.ids()[i] == id);
            assert(v == m.ids().map_values(|id: Seq<char>| m.cached_status(id)));
            assert(v[i] == m.cached_status(id));
        }
        if distinct_ddc_ids(m.ddc) && f < i {
            assert(m.ddc[f].id != m.ddc[i].id);
        }
    }
}

/// Reading the status of the DDC/CI monitor at `i` (the first with its
/// identifier) gives that monitor's name and cached brightness, with no
/// device read.
pub proof fn lemma_status_by_id_own_cache(m: ManagerView, i: usize)
    requires
        i < m.ddc.len(),
        forall|j: int| 0 <= j < i ==> m.ddc[j].id != m.ddc[i as int].id,
    ensures
        status_plan(m, TargetView::ById(m.ddc[i as int].id)) == (
            Some(Ok::<Seq<MonitorStatusView>, ManagerErrorView>(seq![MonitorStatusView {
                id: m.ddc[i as int].id,
                name: m.ddc[i as int].name,
                brightness_percent: m.ddc[i as int].cached_percent,
            }])),
            Seq::<MonitorStatusView>::empty(),
        ),
{
    lemma_first_match_locates(m, m.ddc[i as int].id, i);
}

/// The monitor list holds each DDC/CI monitor, in scan order, as a `Ddc`
/// entry with its identifier, name and cached brightness, followed, when
/// there is a backlight, by one `Backlight` entry for it.
pub proof fn lemma_list_entries(m: ManagerView)
    ensures
        m.infos().len() == m.ddc.len() + (if m.backlight is Some { 1int } else { 0int }),
        forall|i: int| 0 <= i < m.ddc.len() ==> #[trigger] m.infos()[i] == (MonitorInfoView {
            id: m.ddc[i].id,
            name: m.ddc[i].name,
            kind: MonitorKind::Ddc,
            brightness_percent: m.ddc[i].cached_percent,
        }),
        m.backlight matches Some(b) ==> m.infos().last() == (MonitorInfoView {
            id: b.id,
            name: b.name,
            kind: MonitorKind::Backlight,
            brightness_percent: b.cached_percent,
        }),
{
}

/// Resolving an identifier succeeds, with exactly that identifier, when a
/// DDC/CI monitor or the backlight carries it, and fails with `NotFound`
/// naming it when none does; resolving an index in range gives the
/// identifier at that index, and one out of range fails with it.
pub proof fn lemma_resolve_by_id(m: ManagerView, id: Seq<char>, index: usize)
    ensures
        ((exists|j: int| 0 <= j < m.ddc.len() && (#[trigger] m.ddc[j]).id == id) || (m.backlight matches Some(
            b,
        ) && b.id == id)) ==> resolve_spec(m, TargetView::ById(id)) == Ok::<Seq<Seq<char>>, ManagerErrorView>(
            seq![id],
        ),
        !((exists|j: int| 0 <= j < m.ddc.len() && (#[trigger] m.ddc[j]).id == id) || (m.backlight matches Some(
            b,
        ) && b.id == id)) ==> resolve_spec(m, TargetView::ById(id)) == Err::<Seq<Seq<char>>, ManagerErrorView>(
            ManagerErrorView::NotFound(id),
        ),
        m.backlight matches Some(b) ==> resolve_spec(m, TargetView::ById(b.id)) == Ok::<
            Seq<Seq<char>>,
            ManagerErrorView,
        >(seq![b.id]),
        index < m.ids().len() ==> resolve_spec(m, TargetView::ByIndex(index)) == Ok::<
            Seq<Seq<char>>,
            ManagerErrorView,
        >(seq![m.ids()[index as int]]),
        index >= m.ids().len() ==> resolve_spec(m, TargetView::ByIndex(index)) == Err::<
            Seq<Seq<char>>,
            ManagerErrorView,
        >(ManagerErrorView::IndexOutOfRange(index)),
        resolve_spec(m, TargetView::All) == Ok::<Seq<Seq<char>>, ManagerErrorView>(m.ids()),
{
    lemma_ddc_position(m.ddc, id);
    if let Some(b) = m.backlight {
        lemma_ddc_position(m.ddc, b.id);
    }
}

/// Reading the status of the monitor at an index is reading the status of
/// the identifier at that index among all monitors; an index past the last
/// monitor fails with `IndexOutOfRange`.
pub proof fn lemma_status_by_index(m: ManagerView, index: usize)
    ensures
        index < m.ids().len() ==> status_plan(m, TargetView::ByIndex(index)) == status_plan(
            m,
            TargetView::ById(m.ids()[index as int]),
        ),
        index >= m.ids().len() ==> status_plan(m, TargetView::ByIndex(index)) == (
            Some(Err::<Seq<MonitorStatusView>, ManagerErrorView>(ManagerErrorView::IndexOutOfRange(index))),
            Seq::<MonitorStatusView>::empty(),
        ),
{
}

} // verus!
