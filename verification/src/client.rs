//! The client's logic: reading its brightness argument and target, building
//! the request, and what it prints for a response or a failed connection.

use vstd::prelude::*;
use vstd::string::*;
use crate::monitor::{MonitorId, MonitorInfoView, MonitorKind, MonitorStatusView, statuses_view, infos_view};
use crate::protocol::{BrightnessOp, Request, RequestView, Response, ResponseView, Target, TargetView};
use crate::text::{contains, is_digit, lemma_parse_decimal, lemma_decimal_digits, contains_spec, decimal, format_decimal, pad_left, pad_left_spec, pad_right,
    pad_right_spec, parse_unsigned, parse_unsigned_spec};
use crate::waybar::{WaybarOutput, WaybarView, error_output, format_waybar, waybar_error, waybar_spec};

verus! {

/// A brightness argument: absolute (`80`), increase (`+10`) or decrease (`-10`).
#[derive(Debug, Clone, Copy, PartialEq, Eq, Structural)]
pub enum BrightnessArg {
    Absolute(u8),
    Increase(u8),
    Decrease(u8),
}

/// Why a brightness argument was refused.
#[derive(Debug, Clone, Copy, PartialEq, Eq, Structural)]
pub enum BrightnessArgError {
    /// After `+` or `-` there is no number from 0 to 255.
    InvalidDelta,
    /// The argument is no number from 0 to 255.
    InvalidValue,
}

/// The displayed text of a [`BrightnessArgError`].
pub open spec fn arg_error_text(e: BrightnessArgError) -> Seq<char> {
    match e {
        BrightnessArgError::InvalidDelta => "invalid brightness delta"@,
        BrightnessArgError::InvalidValue => "invalid brightness value (0-100)"@,
    }
}

impl BrightnessArgError {
    /// The error as it is displayed.
    pub fn message(&self) -> (r: String)
        ensures
            r@ == arg_error_text(*self),
    {
        match self {
            BrightnessArgError::InvalidDelta => String::from_str("invalid brightness delta"),
            BrightnessArgError::InvalidValue => String::from_str("invalid brightness value (0-100)"),
        }
    }
}

/// How an argument reads: a leading `+` or `-` makes it an increase or a
/// decrease by the number that follows; otherwise it is an absolute value.
/// The numbers are read as `u8::from_str` reads them.
pub open spec fn parse_arg_spec(s: Seq<char>) -> Result<BrightnessArg, BrightnessArgError> {
    if s.len() > 0 && s[0] == '+' {
        match parse_unsigned_spec(s.drop_first(), 255) {
            Some(n) => Ok(BrightnessArg::Increase(n as u8)),
            None => Err(BrightnessArgError::InvalidDelta),
        }
    } else if s.len() > 0 && s[0] == '-' {
        match parse_unsigned_spec(s.drop_first(), 255) {
            Some(n) => Ok(BrightnessArg::Decrease(n as u8)),
            None => Err(BrightnessArgError::InvalidDelta),
        }
    } else {
        match parse_unsigned_spec(s, 255) {
            Some(n) => Ok(BrightnessArg::Absolute(n as u8)),
            None => Err(BrightnessArgError::InvalidValue),
        }
    }
}

/// A brightness argument written as `ddcctl set` documents it reads back
/// as what was meant: `{n}` sets to `n`, `+{n}` increases by `n`, `-{n}`
/// decreases by `n`; and a `--monitor` option written as an index selects
/// that index.
pub proof fn lemma_arguments_read_back(n: u8, index: usize)
    ensures
        parse_arg_spec(decimal(n as nat)) == Ok::<BrightnessArg, BrightnessArgError>(BrightnessArg::Absolute(n)),
        parse_arg_spec(seq!['+'] + decimal(n as nat)) == Ok::<BrightnessArg, BrightnessArgError>(BrightnessArg::Increase(n)),
        parse_arg_spec(seq!['-'] + decimal(n as nat)) == Ok::<BrightnessArg, BrightnessArgError>(BrightnessArg::Decrease(n)),
        resolve_target_spec(Some(decimal(index as nat))) == TargetView::ByIndex(index),
{
    lemma_parse_decimal(n as nat, 255);
    lemma_parse_decimal(index as nat, usize::MAX as nat);
    lemma_decimal_digits(n as nat);
    let d = decimal(n as nat);
    assert(is_digit(d[0]));
    assert((seq!['+'] + d).drop_first() =~= d);
    assert((seq!['-'] + d).drop_first() =~= d);
}

fn parse_u8(s: &str) -> (r: Option<u8>)
    ensures
        r matches Some(v) ==> parse_unsigned_spec(s@, 255) == Some(v as nat),
        r is None ==> parse_unsigned_spec(s@, 255) is None,
{
    match parse_unsigned(s, 255) {
        Some(v) => Some(v as u8),
        None => None,
    }
}

impl BrightnessArg {
    /// Reads a brightness argument.
    pub fn parse(s: &str) -> (r: Result<BrightnessArg, BrightnessArgError>)
        ensures
            r == parse_arg_spec(s@),
    {
        let n = s.unicode_len();
        if n > 0 && s.get_char(0) == '+' {
            let rest = s.substring_char(1, n);
            assert(rest@ =~= s@.drop_first());
            match parse_u8(rest) {
                Some(v) => Ok(BrightnessArg::Increase(v)),
                None => Err(BrightnessArgError::InvalidDelta),
            }
        } else if n > 0 && s.get_char(0) == '-' {
            let rest = s.substring_char(1, n);
            assert(rest@ =~= s@.drop_first());
            match parse_u8(rest) {
                Some(v) => Ok(BrightnessArg::Decrease(v)),
                None => Err(BrightnessArgError::InvalidDelta),
            }
        } else {
            match parse_u8(s) {
                Some(v) => Ok(BrightnessArg::Absolute(v)),
                None => Err(BrightnessArgError::InvalidValue),
            }
        }
    }
}

impl std::str::FromStr for BrightnessArg {
    type Err = String;

    fn from_str(s: &str) -> (r: Result<Self, String>)
        ensures
            match parse_arg_spec(s@) {
                Ok(a) => r == Ok::<BrightnessArg, String>(a),
                Err(e) => r matches Err(m) && m@ == arg_error_text(e),
            },
    {
        match BrightnessArg::parse(s) {
            Ok(a) => Ok(a),
            Err(e) => Err(e.message()),
        }
    }
}

/// The adjustment an argument asks for.
pub open spec fn op_of_arg(arg: BrightnessArg) -> BrightnessOp {
    match arg {
        BrightnessArg::Absolute(p) => BrightnessOp::SetTo { percent: p },
        BrightnessArg::Increase(p) => BrightnessOp::Increase { percent: p },
        BrightnessArg::Decrease(p) => BrightnessOp::Decrease { percent: p },
    }
}

impl From<BrightnessArg> for BrightnessOp {
    fn from(arg: BrightnessArg) -> (r: Self) {
        match arg {
            BrightnessArg::Absolute(p) => BrightnessOp::SetTo { percent: p },
            BrightnessArg::Increase(p) => BrightnessOp::Increase { percent: p },
            BrightnessArg::Decrease(p) => BrightnessOp::Decrease { percent: p },
        }
    }
}

impl vstd::std_specs::convert::FromSpecImpl<BrightnessArg> for BrightnessOp {
    open spec fn obeys_from_spec() -> bool {
        true
    }

    open spec fn from_spec(v: BrightnessArg) -> Self {
        op_of_arg(v)
    }
}

/// A command of the client.
#[derive(Debug)]
pub enum Cmd {
    /// `set`: set brightness: absolute (80), increase (+10), decrease (-10), of the
    /// monitor given by ID or index (default: all monitors), with a fade or not.
    SetBrightness { value: BrightnessArg, monitor: Option<String>, fade: bool },
    /// Get current brightness.
    Get { monitor: Option<String> },
    /// List connected monitors with their IDs.
    List,
    /// Output brightness as Waybar custom module JSON.
    Waybar,
    /// Force the daemon to rescan monitors.
    Rescan,
    /// Check if the daemon is running.
    Ping,
}

/// The target that a `--monitor` option names: all monitors without one;
/// the monitor at an index when it reads as one (as `usize::from_str` reads
/// it); otherwise the monitor with that identifier.
pub open spec fn resolve_target_spec(monitor: Option<Seq<char>>) -> TargetView {
    match monitor {
        None => TargetView::All,
        Some(s) => match parse_unsigned_spec(s, usize::MAX as nat) {
            Some(n) => TargetView::ByIndex(n as usize),
            None => TargetView::ById(s),
        },
    }
}

/// Reads the `--monitor` option.
pub fn resolve_target(monitor: Option<String>) -> (r: Target)
    ensures
        r@ == resolve_target_spec(match monitor { Some(s) => Some(s@), None => None }),
{
    match monitor {
        None => Target::All,
        Some(id) => match parse_unsigned(id.as_str(), usize::MAX as u64) {
            Some(index) => Target::ByIndex { index: index as usize },
            None => Target::ById { id: MonitorId(id) },
        },
    }
}

/// The request a command sends.
pub open spec fn build_request_spec(cmd: Cmd) -> RequestView {
    match cmd {
        Cmd::SetBrightness { value, monitor, fade } => RequestView::SetBrightness {
            target: resolve_target_spec(match monitor { Some(s) => Some(s@), None => None }),
            op: op_of_arg(value),
            fade,
        },
        Cmd::Get { monitor } => RequestView::GetBrightness {
            target: resolve_target_spec(match monitor { Some(s) => Some(s@), None => None }),
        },
        Cmd::List => RequestView::ListMonitors,
        Cmd::Waybar => RequestView::GetBrightness { target: TargetView::All },
        Cmd::Rescan => RequestView::Rescan,
        Cmd::Ping => RequestView::Ping,
    }
}

/// Builds the request a command sends.
pub fn build_request(cmd: Cmd) -> (r: Request)
    ensures
        r@ == build_request_spec(cmd),
{
    match cmd {
        Cmd::SetBrightness { value, monitor, fade } => Request::SetBrightness {
            target: resolve_target(monitor),
            op: BrightnessOp::from(value),
            fade,
        },
        Cmd::Get { monitor } => Request::GetBrightness { target: resolve_target(monitor) },
        Cmd::List => Request::ListMonitors,
        Cmd::Waybar => Request::GetBrightness { target: Target::All },
        Cmd::Rescan => Request::Rescan,
        Cmd::Ping => Request::Ping,
    }
}

/// Whether the command is `waybar`, whose output must stay JSON.
pub fn is_waybar(cmd: &Cmd) -> (b: bool)
    ensures
        b == (*cmd is Waybar),
{
    match cmd {
        Cmd::Waybar => true,
        _ => false,
    }
}

/// What the client prints: lines to standard output, lines to standard
/// error, and the status it exits with (`None`: it returns normally).
#[derive(Debug)]
pub struct ClientOutput {
    pub stdout: Vec<String>,
    pub stderr: Vec<String>,
    pub exit_code: Option<i32>,
}

/// The mathematical content of a [`ClientOutput`].
pub struct ClientOutputView {
    pub stdout: Seq<Seq<char>>,
    pub stderr: Seq<Seq<char>>,
    pub exit_code: Option<i32>,
}

/// The texts of a sequence of strings.
pub open spec fn lines_view(v: Seq<String>) -> Seq<Seq<char>> {
    v.map_values(|s: String| s@)
}

impl View for ClientOutput {
    type V = ClientOutputView;

    open spec fn view(&self) -> ClientOutputView {
        ClientOutputView { stdout: lines_view(self.stdout@), stderr: lines_view(self.stderr@), exit_code: self.exit_code }
    }
}

/// The line printed for a monitor's brightness: `{name}: {brightness}%  ({id})`.
pub open spec fn brightness_line(m: MonitorStatusView) -> Seq<char> {
    m.name + ": "@ + decimal(m.brightness_percent as nat) + "%  ("@ + m.id + ")"@
}

/// The kind as it is listed.
pub open spec fn kind_text(k: MonitorKind) -> Seq<char> {
    match k {
        MonitorKind::Ddc => "ddc"@,
        MonitorKind::Backlight => "backlight"@,
    }
}

/// The heading of the monitor list.
pub open spec fn list_header() -> Seq<char> {
    pad_right_spec("idx"@, 4) + " "@ + pad_right_spec("id"@, 44) + " "@ + pad_right_spec("kind"@, 10) + " "@
        + pad_left_spec("bri"@, 6)
}

/// The line of the monitor list for the monitor at index `i`: the index,
/// the identifier (written as is, without padding), the kind and the
/// brightness, in columns.
pub open spec fn list_line(i: nat, m: MonitorInfoView) -> Seq<char> {
    pad_right_spec(decimal(i), 4) + " "@ + m.id + " "@ + pad_right_spec(kind_text(m.kind), 10) + " "@
        + pad_left_spec(decimal(m.brightness_percent as nat), 5) + "%"@
}

/// A line of 68 dashes.
pub open spec fn rule_line() -> Seq<char> {
    Seq::new(68, |i: int| '-')
}

/// What the client prints for a response.
pub open spec fn render_spec(r: ResponseView) -> ClientOutputView {
    match r {
        ResponseView::Success => ClientOutputView { stdout: seq![], stderr: seq![], exit_code: None },
        ResponseView::Pong { version } => ClientOutputView {
            stdout: seq!["ddcd "@ + version + " is running"@],
            stderr: seq![],
            exit_code: None,
        },
        ResponseView::Error { message } => ClientOutputView {
            stdout: seq![],
            stderr: seq!["error: "@ + message],
            exit_code: Some(1),
        },
        ResponseView::Brightness { monitors } => ClientOutputView {
            stdout: monitors.map_values(|m: MonitorStatusView| brightness_line(m)),
            stderr: seq![],
            exit_code: None,
        },
        ResponseView::Monitors { list } => if list.len() == 0 {
            ClientOutputView { stdout: seq!["no monitors found"@], stderr: seq![], exit_code: None }
        } else {
            ClientOutputView {
                stdout: seq![list_header(), rule_line()] + list.map(|i: int, m: MonitorInfoView| list_line(i as nat, m)),
                stderr: seq![],
                exit_code: None,
            }
        },
    }
}

fn kind_string(k: MonitorKind) -> (r: String)
    ensures
        r@ == kind_text(k),
{
    match k {
        MonitorKind::Ddc => String::from_str("ddc"),
        MonitorKind::Backlight => String::from_str("backlight"),
    }
}

fn rule_string() -> (r: String)
    ensures
        r@ == rule_line(),
{
    let mut r = String::new();
    let mut i: usize = 0;
    while i < 68
        invariant
            i <= 68,
            r@ == Seq::new(i as nat, |k: int| '-'),
        decreases 68 - i,
    {
        proof { reveal_strlit("-"); }
        r.append("-");
        i = i + 1;
        assert(r@ =~= Seq::new(i as nat, |k: int| '-'));
    }
    r
}

/// What the client prints for a response.
pub fn render_response(response: &Response) -> (out: ClientOutput)
    ensures
        out@ == render_spec(response@),
{
    match response {
        Response::Success => {
            let out = ClientOutput { stdout: Vec::new(), stderr: Vec::new(), exit_code: None };
            assert(out@.stdout =~= seq![]);
            assert(out@.stderr =~= seq![]);
            out
        },
        Response::Pong { version } => {
            let mut line = String::from_str("ddcd ");
            line.append(version.as_str());
            line.append(" is running");
            let out = ClientOutput { stdout: vec![line], stderr: Vec::new(), exit_code: None };
            assert(out@.stdout =~= seq![line@]);
            assert(out@.stderr =~= seq![]);
            out
        },
        Response::Error { message } => {
            let mut line = String::from_str("error: ");
            line.append(message.as_str());
            let out = ClientOutput { stdout: Vec::new(), stderr: vec![line], exit_code: Some(1) };
            assert(out@.stdout =~= seq![]);
            assert(out@.stderr =~= seq![line@]);
            out
        },
        Response::Brightness { monitors } => {
            let ghost ms = statuses_view(monitors@);
            let mut lines: Vec<String> = Vec::new();
            let mut i: usize = 0;
            while i < monitors.len()
                invariant
                    i <= monitors@.len(),
                    ms == statuses_view(monitors@),
                    lines_view(lines@) == ms.take(i as int).map_values(|m: MonitorStatusView| brightness_line(m)),
                decreases monitors@.len() - i,
            {
                let m = &monitors[i];
                let mut line = m.name.clone();
                line.append(": ");
                let d = format_decimal(m.brightness_percent as u64);
                line.append(d.as_str());
                line.append("%  (");
                line.append(m.id.as_str());
                line.append(")");
                let ghost before = lines@;
                lines.push(line);
                assert(lines_view(lines@) =~= lines_view(before).push(brightness_line(ms[i as int])));
                assert(ms.take(i + 1) =~= ms.take(i as int).push(ms[i as int]));
                i = i + 1;
            }
            assert(ms.take(i as int) =~= ms);
            let out = ClientOutput { stdout: lines, stderr: Vec::new(), exit_code: None };
            assert(out@.stderr =~= seq![]);
            out
        },
        Response::Monitors { list } => {
            if list.len() == 0 {
                let out = ClientOutput {
                    stdout: vec![String::from_str("no monitors found")],
                    stderr: Vec::new(),
                    exit_code: None,
                };
                assert(out@.stdout =~= seq!["no monitors found"@]);
                assert(out@.stderr =~= seq![]);
                return out;
            }
            let ghost ls = infos_view(list@);
            let mut header = pad_right("idx", 4);
            header.append(" ");
            let c2 = pad_right("id", 44);
            header.append(c2.as_str());
            header.append(" ");
            let c3 = pad_right("kind", 10);
            header.append(c3.as_str());
            header.append(" ");
            let c4 = pad_left("bri", 6);
            header.append(c4.as_str());
            let mut lines: Vec<String> = vec![header, rule_string()];
            assert(lines_view(lines@) =~= seq![list_header(), rule_line()]);
            let mut i: usize = 0;
            while i < list.len()
                invariant
                    i <= list@.len(),
                    ls == infos_view(list@),
                    lines_view(lines@) == seq![list_header(), rule_line()]
                        + ls.take(i as int).map(|k: int, m: MonitorInfoView| list_line(k as nat, m)),
                decreases list@.len() - i,
            {
                let m = &list[i];
                let idx = format_decimal(i as u64);
                let mut line = pad_right(idx.as_str(), 4);
                line.append(" ");
                line.append(m.id.as_str());
                line.append(" ");
                let k = kind_string(m.kind);
                let kp = pad_right(k.as_str(), 10);
                line.append(kp.as_str());
                line.append(" ");
                let b = format_decimal(m.brightness_percent as u64);
                let bp = pad_left(b.as_str(), 5);
                line.append(bp.as_str());
                line.append("%");
                let ghost before = lines@;
                lines.push(line);
                assert(lines_view(lines@) =~= lines_view(before).push(list_line(i as nat, ls[i as int])));
                assert(ls.take(i + 1).map(|k: int, m: MonitorInfoView| list_line(k as nat, m)) =~= ls.take(
                    i as int).map(|k: int, m: MonitorInfoView| list_line(k as nat, m)).push(list_line(i as nat, ls[i as int])));
                i = i + 1;
            }
            assert(ls.take(i as int) =~= ls);
            let out = ClientOutput { stdout: lines, stderr: Vec::new(), exit_code: None };
            assert(out@.stderr =~= seq![]);
            out
        },
    }
}

/// What the client prints: for brightnesses, one line per monitor, in the
/// order given; for a non-empty list, a heading, a rule, then one line per
/// monitor in order, numbered from 0, with its kind written `ddc` or
/// `backlight`; for an error, its message on standard error and exit status
/// 1; nothing is ever written to standard error but for an error.
pub proof fn lemma_render_lines(monitors: Seq<MonitorStatusView>, list: Seq<MonitorInfoView>, message: Seq<char>)
    ensures
        ({
            let out = render_spec(ResponseView::Brightness { monitors });
            &&& out.stdout.len() == monitors.len()
            &&& forall|i: int| 0 <= i < monitors.len() ==> out.stdout[i] == brightness_line(#[trigger] monitors[i])
            &&& out.stderr.len() == 0
            &&& out.exit_code is None
        }),
        list.len() > 0 ==> ({
            let out = render_spec(ResponseView::Monitors { list });
            &&& out.stdout.len() == list.len() + 2
            &&& out.stdout[0] == list_header()
            &&& out.stdout[1] == rule_line()
            &&& forall|i: int| 0 <= i < list.len() ==> out.stdout[i + 2] == list_line(i as nat, #[trigger] list[i])
            &&& out.stderr.len() == 0
        }),
        list.len() == 0 ==> render_spec(ResponseView::Monitors { list }).stdout == seq!["no monitors found"@],
        kind_text(MonitorKind::Ddc) != kind_text(MonitorKind::Backlight),
        ({
            let out = render_spec(ResponseView::Error { message });
            &&& out.stdout.len() == 0
            &&& out.stderr == seq!["error: "@ + message]
            &&& out.exit_code == Some(1i32)
        }),
{
    reveal_strlit("ddc");
    reveal_strlit("backlight");
    assert(kind_text(MonitorKind::Ddc).len() != kind_text(MonitorKind::Backlight).len());
}

/// What the `waybar` command shows for a response: the brightness of the
/// monitors; the daemon's error message; or `unexpected response`.
pub open spec fn waybar_response_spec(r: ResponseView) -> WaybarView {
    match r {
        ResponseView::Brightness { monitors } => waybar_spec(monitors),
        ResponseView::Error { message } => waybar_error(message),
        _ => waybar_error("unexpected response"@),
    }
}

/// The Waybar output for a response.
pub fn render_waybar(response: &Response) -> (out: WaybarOutput)
    requires
        response matches Response::Brightness { monitors } ==> crate::waybar::average_fits(statuses_view(monitors@)),
    ensures
        out@ == waybar_response_spec(response@),
{
    match response {
        Response::Brightness { monitors } => format_waybar(monitors.as_slice()),
        Response::Error { message } => error_output(message.clone()),
        _ => error_output(String::from_str("unexpected response")),
    }
}

/// What the client shows when it could not talk to the daemon.
#[derive(Debug)]
pub enum ConnectionFailure {
    /// The `waybar` command prints this and exits normally.
    Waybar(WaybarOutput),
    /// Other commands print this.
    Report(ClientOutput),
}

/// What the client shows when talking to the daemon at `socket` failed with
/// the error text `error`: for `waybar`, `N/A` with the error; otherwise the
/// error -- or, when it tells of a missing socket or a refused connection, a
/// hint to start the daemon -- and exit status 1.
pub open spec fn failure_spec(waybar: bool, error: Seq<char>, socket: Seq<char>) -> Result<WaybarView, ClientOutputView> {
    if waybar {
        Ok(waybar_error("ddcd not running: "@ + error))
    } else if contains_spec(error, "No such file"@) || contains_spec(error, "Connection refused"@) {
        Err(ClientOutputView {
            stdout: seq![],
            stderr: seq!["error: could not connect to ddcd at "@ + socket, "  Is ddcd running? Start it with: ddcd"@],
            exit_code: Some(1),
        })
    } else {
        Err(ClientOutputView { stdout: seq![], stderr: seq!["error: "@ + error], exit_code: Some(1) })
    }
}

/// What the client shows when talking to the daemon failed.
pub fn connection_failure(waybar: bool, error: &str, socket: &str) -> (r: ConnectionFailure)
    ensures
        match failure_spec(waybar, error@, socket@) {
            Ok(w) => r matches ConnectionFailure::Waybar(o) && o@ == w,
            Err(c) => r matches ConnectionFailure::Report(o) && o@ == c,
        },
{
    if waybar {
        let mut t = String::from_str("ddcd not running: ");
        t.append(error);
        return ConnectionFailure::Waybar(error_output(t));
    }
    if contains(error, "No such file") || contains(error, "Connection refused") {
        let mut l1 = String::from_str("error: could not connect to ddcd at ");
        l1.append(socket);
        let l2 = String::from_str("  Is ddcd running? Start it with: ddcd");
        let out = ClientOutput { stdout: Vec::new(), stderr: vec![l1, l2], exit_code: Some(1) };
        assert(out@.stdout =~= seq![]);
        assert(out@.stderr =~= seq![l1@, l2@]);
        ConnectionFailure::Report(out)
    } else {
        let mut l = String::from_str("error: ");
        l.append(error);
        let out = ClientOutput { stdout: Vec::new(), stderr: vec![l], exit_code: Some(1) };
        assert(out@.stdout =~= seq![]);
        assert(out@.stderr =~= seq![l@]);
        ConnectionFailure::Report(out)
    }
}

} // verus!
