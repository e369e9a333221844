//! The framing of messages on the daemon's socket -- a 4-byte little-endian
//! byte count, then that many bytes of JSON -- and where the socket is.

use vstd::prelude::*;
use vstd::string::*;
use crate::text::{decimal, format_decimal, path_join, path_join_spec};

verus! {

/// The largest payload a reader accepts: 1 MiB.
pub const MAX_MESSAGE_LEN: usize = 1048576;

/// The four little-endian bytes of `n` (below 2^32).
pub open spec fn le_bytes(n: nat) -> Seq<u8> {
    seq![(n % 256) as u8, (n / 256 % 256) as u8, (n / 65536 % 256) as u8, (n / 16777216 % 256) as u8]
}

/// The number that four little-endian bytes denote.
pub open spec fn le_value(b: Seq<u8>) -> nat {
    (b[0] + 256 * b[1] + 65536 * b[2] + 16777216 * b[3]) as nat
}

/// The frame of a payload: its length (modulo 2^32, as a `u32`), in four
/// little-endian bytes, then the payload.
pub open spec fn frame_spec(payload: Seq<u8>) -> Seq<u8> {
    le_bytes(payload.len() % 0x1_0000_0000) + payload
}

/// Frames a payload for writing.
pub fn frame_message(payload: &[u8]) -> (r: Vec<u8>)
    ensures
        r@ == frame_spec(payload@),
{
    let n: u64 = payload.len() as u64 % 0x1_0000_0000;
    let mut r: Vec<u8> = Vec::new();
    r.push((n % 256) as u8);
    r.push((n / 256 % 256) as u8);
    r.push((n / 65536 % 256) as u8);
    r.push((n / 16777216 % 256) as u8);
    let mut i: usize = 0;
    while i < payload.len()
        invariant
            i <= payload@.len(),
            n == payload@.len() % 0x1_0000_0000,
            r@ == le_bytes(n as nat) + payload@.take(i as int),
        decreases payload@.len() - i,
    {
        r.push(payload[i]);
        i = i + 1;
        assert(r@ =~= le_bytes(n as nat) + payload@.take(i as int));
    }
    assert(payload@.take(i as int) =~= payload@);
    r
}

/// A refused frame.
#[derive(Debug, Clone, Copy, PartialEq, Eq, Structural)]
pub enum FrameError {
    /// The length prefix announces more than [`MAX_MESSAGE_LEN`] bytes.
    TooLarge(usize),
}

impl FrameError {
    /// The error as it is displayed.
    pub fn message(&self) -> (r: String)
        ensures
            match *self {
                FrameError::TooLarge(n) => r@ == "message too large: "@ + decimal(n as nat) + " bytes"@,
            },
    {
        match self {
            FrameError::TooLarge(n) => {
                let mut r = String::from_str("message too large: ");
                let d = format_decimal(*n as u64);
                r.append(d.as_str());
                r.append(" bytes");
                r
            },
        }
    }
}

/// The payload length that a length prefix announces, refused above
/// [`MAX_MESSAGE_LEN`].
pub fn payload_length(prefix: [u8; 4]) -> (r: Result<usize, FrameError>)
    ensures
        le_value(prefix@) <= MAX_MESSAGE_LEN ==> r == Ok::<usize, FrameError>(le_value(prefix@) as usize),
        le_value(prefix@) > MAX_MESSAGE_LEN ==> r == Err::<usize, FrameError>(FrameError::TooLarge(le_value(prefix@) as usize)),
{
    let n: u32 = prefix[0] as u32 + 256 * prefix[1] as u32 + 65536 * prefix[2] as u32 + 16777216 * prefix[3] as u32;
    let len = n as usize;
    if len <= MAX_MESSAGE_LEN {
        Ok(len)
    } else {
        Err(FrameError::TooLarge(len))
    }
}

/// Reading a frame gives back what was framed: the length prefix of the
/// frame of a payload of at most [`MAX_MESSAGE_LEN`] bytes announces its
/// length, and the payload follows it.
pub proof fn lemma_frame_roundtrip(payload: Seq<u8>)
    requires
        payload.len() <= MAX_MESSAGE_LEN,
    ensures
        le_value(frame_spec(payload).take(4)) == payload.len(),
        frame_spec(payload).skip(4) == payload,
{
    let n = payload.len() as int;
    let f = frame_spec(payload);
    assert(n % 0x1_0000_0000 == n);
    assert(f.take(4) =~= le_bytes(n as nat));
    assert(f.skip(4) =~= payload);
    assert((n % 256) + 256 * (n / 256 % 256) + 65536 * (n / 65536 % 256) + 16777216 * (n / 16777216 % 256) == n)
        by (nonlinear_arith)
        requires 0 <= n <= 1048576;
}

/// The path of the daemon's socket: `/run/ddcd.sock` for root or when a
/// system daemon's socket exists there; otherwise `ddcd.sock` in the
/// user's runtime directory, or `/tmp/ddcd-{uid}.sock` without one.
pub open spec fn socket_path_spec(uid: u32, system_socket_exists: bool, runtime_dir: Option<Seq<char>>) -> Seq<char> {
    if uid == 0 || system_socket_exists {
        "/run/ddcd.sock"@
    } else {
        match runtime_dir {
            Some(d) => path_join_spec(d, "ddcd.sock"@),
            None => "/tmp/ddcd-"@ + decimal(uid as nat) + ".sock"@,
        }
    }
}

/// The default socket path, given the user id, whether `/run/ddcd.sock`
/// exists, and `XDG_RUNTIME_DIR` (`None` when unset or not Unicode).
pub fn default_socket_path(uid: u32, system_socket_exists: bool, runtime_dir: Option<String>) -> (r: String)
    ensures
        r@ == socket_path_spec(uid, system_socket_exists, match runtime_dir { Some(d) => Some(d@), None => None }),
{
    if uid == 0 || system_socket_exists {
        return String::from_str("/run/ddcd.sock");
    }
    match runtime_dir {
        Some(d) => {
            proof { reveal_strlit("ddcd.sock"); }
            path_join(d.as_str(), "ddcd.sock")
        },
        None => {
            let mut r = String::from_str("/tmp/ddcd-");
            let u = format_decimal(uid as u64);
            r.append(u.as_str());
            r.append(".sock");
            r
        },
    }
}

/// Which socket path the daemon uses: the one given on its command line,
/// else the one configured (when not empty), else the default one.
#[derive(Debug)]
pub enum SocketChoice<P> {
    Given(P),
    Configured(String),
    Default,
}

/// Chooses the daemon's socket path from the command-line option and the
/// configured path (empty when not configured).
pub fn choose_socket_path<P>(given: Option<P>, configured: &str) -> (r: SocketChoice<P>)
    ensures
        given matches Some(p) ==> r == SocketChoice::<P>::Given(p),
        given is None && configured@.len() > 0 ==> (r matches SocketChoice::Configured(c) && c@ == configured@),
        given is None && configured@.len() == 0 ==> r is Default,
{
    match given {
        Some(p) => SocketChoice::Given(p),
        None => {
            if configured.unicode_len() == 0 {
                SocketChoice::Default
            } else {
                SocketChoice::Configured(String::from_str(configured))
            }
        },
    }
}

} // verus!
