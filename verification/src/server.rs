//! How the daemon answers a request: the decision for each request, and the
//! response that the outcome of the work gives.
//!
//! The daemon's loop reads a request, asks [`dispatch`] what to do, does it
//! (a rescan, device reads and writes through the steps of
//! [`MonitorManager`], starting fades, updating the coalesced brightness of
//! all monitors) and answers with the response built here.

use vstd::prelude::*;
use vstd::string::*;
use crate::config::{Config, ConfigView};
use crate::monitor::{MonitorId, MonitorStatus, statuses_view, ids_view};
use crate::monitor_manager::{MonitorManager, ManagerError, ManagerView, apply_op_spec,
    apply_op, manager_error_text, resolve_spec, statuses_result_view, status_result_view};
use crate::protocol::{BrightnessOp, Request, RequestView, Response, ResponseView, Target, TargetView};

verus! {

/// A fade to start: for which monitor, from and to which brightness, over
/// how long and in how many steps.
#[derive(Debug)]
pub struct FadeStart {
    pub id: MonitorId,
    pub from: u8,
    pub to: u8,
    pub duration_ms: u64,
    pub steps: u8,
}

/// The mathematical content of a [`FadeStart`].
pub struct FadeStartView {
    pub id: Seq<char>,
    pub from: u8,
    pub to: u8,
    pub duration_ms: u64,
    pub steps: u8,
}

impl View for FadeStart {
    type V = FadeStartView;

    open spec fn view(&self) -> FadeStartView {
        FadeStartView { id: self.id@, from: self.from, to: self.to, duration_ms: self.duration_ms, steps: self.steps }
    }
}

/// What the daemon does with a request.
#[derive(Debug)]
pub enum RequestPlan {
    /// Answer at once.
    Reply(Response),
    /// Rescan the monitors, then answer [`rescan_response`].
    Rescan,
    /// Read the statuses of the target (see [`MonitorManager::get_status`]),
    /// then answer [`status_response`].
    Status(Target),
    /// Start these fades, replacing any running fade of the same monitor,
    /// then answer `Success`.
    Fade(Vec<FadeStart>),
    /// Make this the brightness that every monitor is to have (the latest
    /// value wins), then answer `Success`.
    SetAll(u8),
    /// Apply `op` to the monitor `id` (see [`MonitorManager::apply_to_monitor`]),
    /// then answer [`apply_response`].
    ApplyOne { id: MonitorId, op: BrightnessOp },
}

/// The mathematical content of a [`RequestPlan`].
pub enum RequestPlanView {
    Reply(ResponseView),
    Rescan,
    Status(TargetView),
    Fade(Seq<FadeStartView>),
    SetAll(u8),
    ApplyOne { id: Seq<char>, op: BrightnessOp },
}

impl View for RequestPlan {
    type V = RequestPlanView;

    open spec fn view(&self) -> RequestPlanView {
        match self {
            RequestPlan::Reply(r) => RequestPlanView::Reply(r@),
            RequestPlan::Rescan => RequestPlanView::Rescan,
            RequestPlan::Status(t) => RequestPlanView::Status(t@),
            RequestPlan::Fade(v) => RequestPlanView::Fade(v@.map_values(|f: FadeStart| f@)),
            RequestPlan::SetAll(p) => RequestPlanView::SetAll(*p),
            RequestPlan::ApplyOne { id, op } => RequestPlanView::ApplyOne { id: id@, op: *op },
        }
    }
}

/// The fades for the monitors `ids`: each from its current brightness to
/// that brightness adjusted by `op`.
pub open spec fn fades_spec(m: ManagerView, ids: Seq<Seq<char>>, op: BrightnessOp, c: ConfigView) -> Seq<FadeStartView> {
    ids.map_values(|id: Seq<char>| FadeStartView {
        id,
        from: m.fade_start(id),
        to: apply_op_spec(op, m.fade_start(id)),
        duration_ms: c.fade_duration_ms,
        steps: c.fade_steps,
    })
}

/// The decision for a request, given the monitor set, the configuration,
/// the brightness last asked of all monitors, and the daemon's version.
pub open spec fn dispatch_spec(m: ManagerView, c: ConfigView, request: RequestView, desired: u8, version: Seq<char>) -> RequestPlanView {
    match request {
        RequestView::Ping => RequestPlanView::Reply(ResponseView::Pong { version }),
        RequestView::Rescan => RequestPlanView::Rescan,
        RequestView::ListMonitors => RequestPlanView::Reply(ResponseView::Monitors { list: m.infos() }),
        RequestView::GetBrightness { target } => RequestPlanView::Status(target),
        RequestView::SetBrightness { target, op, fade } => if fade || c.fade_enabled {
            match resolve_spec(m, target) {
                Ok(ids) => RequestPlanView::Fade(fades_spec(m, ids, op, c)),
                Err(e) => RequestPlanView::Reply(ResponseView::Error { message: manager_error_text(e) }),
            }
        } else {
            match target {
                TargetView::All => RequestPlanView::SetAll(apply_op_spec(op, desired)),
                TargetView::ById(id) => RequestPlanView::ApplyOne { id, op },
                TargetView::ByIndex(_) => match resolve_spec(m, target) {
                    Ok(ids) => RequestPlanView::ApplyOne { id: ids[0], op },
                    Err(e) => RequestPlanView::Reply(ResponseView::Error { message: manager_error_text(e) }),
                },
            }
        },
    }
}

fn error_response(e: &ManagerError) -> (r: Response)
    ensures
        r@ == (ResponseView::Error { message: manager_error_text(e@) }),
{
    Response::Error { message: e.message() }
}

/// Decides what to do with a request. `desired` is the brightness last
/// asked of all monitors together; `version` is the daemon's version.
pub fn dispatch(manager: &MonitorManager, config: &Config, request: Request, desired: u8, version: &str) -> (r: RequestPlan)
    ensures
        r@ == dispatch_spec(manager@, config@, request@, desired, version@),
{
    match request {
        Request::Ping => RequestPlan::Reply(Response::Pong { version: String::from_str(version) }),
        Request::Rescan => RequestPlan::Rescan,
        Request::ListMonitors => RequestPlan::Reply(Response::Monitors { list: manager.list_monitors() }),
        Request::GetBrightness { target } => RequestPlan::Status(target),
        Request::SetBrightness { target, op, fade } => {
            if fade || config.fade.enabled {
                let ids = match manager.resolve_target(&target) {
                    Ok(ids) => ids,
                    Err(e) => return RequestPlan::Reply(error_response(&e)),
                };
                let mut fades: Vec<FadeStart> = Vec::new();
                let mut k: usize = 0;
                while k < ids.len()
                    invariant
                        k <= ids@.len(),
                        fades@.map_values(|f: FadeStart| f@) == fades_spec(manager@, ids_view(ids@), op, config@).take(k as int),
                    decreases ids@.len() - k,
                {
                    let current = manager.fade_start_percent(&ids[k]);
                    let to = apply_op(&op, current);
                    let ghost before = fades@;
                    fades.push(FadeStart {
                        id: ids[k].clone(),
                        from: current,
                        to,
                        duration_ms: config.fade.duration_ms,
                        steps: config.fade.steps,
                    });
                    assert(fades@.map_values(|f: FadeStart| f@) =~= before.map_values(|f: FadeStart| f@).push(fades@.last()@));
                    assert(fades_spec(manager@, ids_view(ids@), op, config@).take(k + 1) =~= fades_spec(
                        manager@, ids_view(ids@), op, config@).take(k as int).push(fades@.last()@));
                    k = k + 1;
                }
                assert(fades_spec(manager@, ids_view(ids@), op, config@).take(k as int) =~= fades_spec(
                    manager@, ids_view(ids@), op, config@));
                RequestPlan::Fade(fades)
            } else {
                match target {
                    Target::All => RequestPlan::SetAll(apply_op(&op, desired)),
                    Target::ById { id } => RequestPlan::ApplyOne { id, op },
                    Target::ByIndex { .. } => match manager.resolve_target(&target) {
                        Ok(ids) => {
                            assert(ids_view(ids@).len() == 1);
                            RequestPlan::ApplyOne { id: ids[0].clone(), op }
                        },
                        Err(e) => RequestPlan::Reply(error_response(&e)),
                    },
                }
            }
        },
    }
}

/// The answer to reading statuses: the statuses, or the error's text.
pub fn status_response(result: Result<Vec<MonitorStatus>, ManagerError>) -> (r: Response)
    ensures
        match statuses_result_view(result) {
            Ok(v) => r@ == ResponseView::Brightness { monitors: v },
            Err(e) => r@ == ResponseView::Error { message: manager_error_text(e) },
        },
{
    match result {
        Ok(monitors) => Response::Brightness { monitors },
        Err(e) => error_response(&e),
    }
}

/// The answer to applying an adjustment to one monitor: its new status, or
/// the error's text.
pub fn apply_response(result: Result<MonitorStatus, ManagerError>) -> (r: Response)
    ensures
        match status_result_view(result) {
            Ok(s) => r@ == ResponseView::Brightness { monitors: seq![s] },
            Err(e) => r@ == ResponseView::Error { message: manager_error_text(e) },
        },
{
    match result {
        Ok(s) => {
            let v = vec![s];
            assert(statuses_view(v@) =~= seq![v@[0]@]);
            Response::Brightness { monitors: v }
        },
        Err(e) => error_response(&e),
    }
}

/// The answer to a completed rescan.
pub fn rescan_response() -> (r: Response)
    ensures
        r@ == ResponseView::Success,
{
    Response::Success
}

} // verus!
