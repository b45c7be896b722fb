//! Error taxonomy.

use vstd::prelude::*;

verus! {

/// Kind of a WebUSB error.
#[derive(Debug, Clone, Copy, PartialEq, Eq, Structural, PartialOrd, Ord, Hash)]
#[non_exhaustive]
pub enum ErrorKind {
    /// WebUSB is unsupported by this host.
    Unsupported,
    /// The USB device has already been opened.
    AlreadyOpen,
    /// The USB device has been disconnected.
    Disconnected,
    /// Access denied.
    Security,
    /// The USB device stalled the transfer to indicate an error.
    ///
    /// This condition is reset by a successful `clear_halt` on the endpoint.
    Stall,
    /// The USB device sent too much data.
    Babble,
    /// USB transfer failed.
    Transfer,
    /// Invalid access.
    InvalidAccess,
    /// Other error.
    Other,
}

/// WebUSB error: a kind to match on and a diagnostic message.
#[derive(Debug, Clone)]
pub struct Error {
    kind: ErrorKind,
    msg: String,
}

/// WebUSB result.
pub type Result<T> = core::result::Result<T, Error>;

impl View for Error {
    type V = (ErrorKind, Seq<char>);

    closed spec fn view(&self) -> (ErrorKind, Seq<char>) {
        (self.kind, self.msg@)
    }
}

/// The kind that a platform error of the given name maps to.
pub open spec fn kind_for_name(name: Seq<char>) -> ErrorKind {
    if name == "NotFoundError"@ {
        ErrorKind::Disconnected
    } else if name == "SecurityError"@ {
        ErrorKind::Security
    } else if name == "InvalidAccessError"@ {
        ErrorKind::InvalidAccess
    } else if name == "NetworkError"@ {
        ErrorKind::Transfer
    } else {
        ErrorKind::Other
    }
}

/// The name of an error kind.
pub open spec fn kind_text(kind: ErrorKind) -> Seq<char> {
    match kind {
        ErrorKind::Unsupported => "Unsupported"@,
        ErrorKind::AlreadyOpen => "AlreadyOpen"@,
        ErrorKind::Disconnected => "Disconnected"@,
        ErrorKind::Security => "Security"@,
        ErrorKind::Stall => "Stall"@,
        ErrorKind::Babble => "Babble"@,
        ErrorKind::Transfer => "Transfer"@,
        ErrorKind::InvalidAccess => "InvalidAccess"@,
        ErrorKind::Other => "Other"@,
    }
}

/// Whether a result failed with an error of the given kind.
pub open spec fn fails_with<T>(r: Result<T>, kind: ErrorKind) -> bool {
    r is Err && r->Err_0@.0 == kind
}

fn same_text(a: &str, b: &str) -> (r: bool)
    ensures
        r == (a@ == b@),
{
    a.to_owned() == b.to_owned()
}

/// Maps a platform error name to an error kind.
pub fn kind_from_name(name: &str) -> (r: ErrorKind)
    ensures
        r == kind_for_name(name@),
{
    if same_text(name, "NotFoundError") {
        ErrorKind::Disconnected
    } else if same_text(name, "SecurityError") {
        ErrorKind::Security
    } else if same_text(name, "InvalidAccessError") {
        ErrorKind::InvalidAccess
    } else if same_text(name, "NetworkError") {
        ErrorKind::Transfer
    } else {
        ErrorKind::Other
    }
}

impl ErrorKind {
    /// The name of this kind.
    pub fn name(&self) -> (r: &'static str)
        ensures
            r@ == kind_text(*self),
    {
        match self {
            ErrorKind::Unsupported => "Unsupported",
            ErrorKind::AlreadyOpen => "AlreadyOpen",
            ErrorKind::Disconnected => "Disconnected",
            ErrorKind::Security => "Security",
            ErrorKind::Stall => "Stall",
            ErrorKind::Babble => "Babble",
            ErrorKind::Transfer => "Transfer",
            ErrorKind::InvalidAccess => "InvalidAccess",
            ErrorKind::Other => "Other",
        }
    }
}

impl Error {
    /// Creates an error of the given kind with a diagnostic message.
    pub fn new(kind: ErrorKind, msg: &str) -> (r: Error)
        ensures
            r@ == (kind, msg@),
    {
        Error { kind, msg: msg.to_owned() }
    }

    /// Error kind.
    pub fn kind(&self) -> (r: ErrorKind)
        ensures
            r == self@.0,
    {
        self.kind
    }

    /// Error message.
    pub fn msg(&self) -> (r: &str)
        ensures
            r@ == self@.1,
    {
        self.msg.as_str()
    }

    /// The error as text: the kind's name, a colon and the message.
    pub fn to_text(&self) -> (r: String)
        ensures
            r@ == kind_text(self@.0) + ": "@ + self@.1,
    {
        let text = self.kind.name().to_owned();
        let text = text.concat(": ");
        text.concat(self.msg.as_str())
    }

    /// Builds the error for a platform exception with the given name and
    /// message: the kind follows the platform error name table.
    pub fn from_exception(name: &str, message: &str) -> (r: Error)
        ensures
            r@ == (kind_for_name(name@), message@),
    {
        Error::new(kind_from_name(name), message)
    }

    /// Builds the error for a rejection that is not a platform exception: its
    /// text if it has one, else "unknown error", of kind `Other`.
    pub fn from_value(text: Option<&str>) -> (r: Error)
        ensures
            r@.0 == ErrorKind::Other,
            text is Some ==> r@.1 == text->Some_0@,
            text is None ==> r@.1 == "unknown error"@,
    {
        match text {
            Some(t) => Error::new(ErrorKind::Other, t),
            None => Error::new(ErrorKind::Other, "unknown error"),
        }
    }
}

impl PartialEq for Error {
    fn eq(&self, other: &Error) -> (r: bool)
        ensures
            r == (self@ == other@),
    {
        self.kind == other.kind && self.msg == other.msg
    }
}

impl vstd::std_specs::cmp::PartialEqSpecImpl for Error {
    open spec fn obeys_eq_spec() -> bool {
        true
    }

    open spec fn eq_spec(&self, other: &Error) -> bool {
        self@ == other@
    }
}

impl Eq for Error {}

} // verus!
