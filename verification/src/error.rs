//! The error kinds of the daemon's device layer.

use vstd::prelude::*;

verus! {

#[verifier::external_type_specification]
#[verifier::external_body]
pub struct ExIoError(std::io::Error);

/// An error of the daemon's device layer.
#[derive(Debug)]
pub enum DdcError {
    Ipc(String),
    NotFound(String),
    PermissionDenied(String),
    DdcFailed(String),
    BacklightFailed(String),
    Io(std::io::Error),
}

/// Trusted: the `Display` text of a `std::io::Error`, written with `format!`.
/// Nothing is stated of it: the text comes from the operating system's
/// error descriptions.
#[verifier::external_body]
fn io_error_text(e: &std::io::Error) -> String {
    format!("{}", e)
}

impl DdcError {
    /// The error as it is displayed.
    pub fn message(&self) -> (r: String)
        ensures
            match self {
                DdcError::Ipc(s) => r@ == "IPC error: "@ + s@,
                DdcError::NotFound(s) => r@ == "monitor not found: "@ + s@,
                DdcError::PermissionDenied(s) => r@ == "permission denied: "@ + s@,
                DdcError::DdcFailed(s) => r@ == "DDC/CI error: "@ + s@,
                DdcError::BacklightFailed(s) => r@ == "backlight error: "@ + s@,
                DdcError::Io(_) => exists|t: Seq<char>| r@ == "I/O error: "@ + t,
            },
    {
        let (prefix, detail): (&str, String) = match self {
            DdcError::Ipc(s) => ("IPC error: ", s.clone()),
            DdcError::NotFound(s) => ("monitor not found: ", s.clone()),
            DdcError::PermissionDenied(s) => ("permission denied: ", s.clone()),
            DdcError::DdcFailed(s) => ("DDC/CI error: ", s.clone()),
            DdcError::BacklightFailed(s) => ("backlight error: ", s.clone()),
            DdcError::Io(e) => ("I/O error: ", io_error_text(e)),
        };
        let mut r = String::from_str(prefix);
        r.append(detail.as_str());
        r
    }
}

impl From<std::io::Error> for DdcError {
    fn from(e: std::io::Error) -> (r: Self) {
        DdcError::Io(e)
    }
}

impl vstd::std_specs::convert::FromSpecImpl<std::io::Error> for DdcError {
    open spec fn obeys_from_spec() -> bool {
        true
    }

    open spec fn from_spec(v: std::io::Error) -> Self {
        DdcError::Io(v)
    }
}

} // verus!
