//! The requests a client sends to the daemon and the responses it gets back.

use vstd::prelude::*;
use crate::monitor::{MonitorId, MonitorInfo, MonitorStatus, MonitorInfoView, MonitorStatusView, statuses_view, infos_view};

verus! {

/// Which monitors a command targets.
#[derive(Debug)]
pub enum Target {
    All,
    ById { id: MonitorId },
    ByIndex { index: usize },
}

/// The mathematical content of a [`Target`].
pub enum TargetView {
    All,
    ById(Seq<char>),
    ByIndex(usize),
}

impl View for Target {
    type V = TargetView;

    open spec fn view(&self) -> TargetView {
        match self {
            Target::All => TargetView::All,
            Target::ById { id } => TargetView::ById(id@),
            Target::ByIndex { index } => TargetView::ByIndex(*index),
        }
    }
}

impl Clone for Target {
    fn clone(&self) -> (r: Self)
        ensures
            r@ == self@,
    {
        match self {
            Target::All => Target::All,
            Target::ById { id } => Target::ById { id: id.clone() },
            Target::ByIndex { index } => Target::ByIndex { index: *index },
        }
    }
}

/// The brightness adjustment to apply.
#[derive(Debug, Clone, Copy, PartialEq, Eq, Structural)]
pub enum BrightnessOp {
    /// Set to absolute percentage (0-100). (On the wire: `set`.)
    SetTo { percent: u8 },
    /// Increase by N percentage points.
    Increase { percent: u8 },
    /// Decrease by N percentage points.
    Decrease { percent: u8 },
}

/// A command sent by the client.
#[derive(Debug)]
pub enum Request {
    SetBrightness {
        target: Target,
        op: BrightnessOp,
        /// Request animated fade transition.
        fade: bool,
    },
    GetBrightness { target: Target },
    ListMonitors,
    Ping,
    /// Force an immediate monitor rescan.
    Rescan,
}

/// The mathematical content of a [`Request`].
pub enum RequestView {
    SetBrightness { target: TargetView, op: BrightnessOp, fade: bool },
    GetBrightness { target: TargetView },
    ListMonitors,
    Ping,
    Rescan,
}

impl View for Request {
    type V = RequestView;

    open spec fn view(&self) -> RequestView {
        match self {
            Request::SetBrightness { target, op, fade } => RequestView::SetBrightness {
                target: target@,
                op: *op,
                fade: *fade,
            },
            Request::GetBrightness { target } => RequestView::GetBrightness { target: target@ },
            Request::ListMonitors => RequestView::ListMonitors,
            Request::Ping => RequestView::Ping,
            Request::Rescan => RequestView::Rescan,
        }
    }
}

/// The daemon's answer to a [`Request`].
#[derive(Debug)]
pub enum Response {
    /// The command was carried out. (On the wire: `ok`.)
    Success,
    Brightness { monitors: Vec<MonitorStatus> },
    Monitors { list: Vec<MonitorInfo> },
    Pong { version: String },
    Error { message: String },
}

/// The mathematical content of a [`Response`].
pub enum ResponseView {
    Success,
    Brightness { monitors: Seq<MonitorStatusView> },
    Monitors { list: Seq<MonitorInfoView> },
    Pong { version: Seq<char> },
    Error { message: Seq<char> },
}

impl View for Response {
    type V = ResponseView;

    open spec fn view(&self) -> ResponseView {
        match self {
            Response::Success => ResponseView::Success,
            Response::Brightness { monitors } => ResponseView::Brightness {
                monitors: statuses_view(monitors@),
            },
            Response::Monitors { list } => ResponseView::Monitors { list: infos_view(list@) },
            Response::Pong { version } => ResponseView::Pong { version: version@ },
            Response::Error { message } => ResponseView::Error { message: message@ },
        }
    }
}

} // verus!
