//! The error taxonomy: invalid arguments, internal contract violations, and
//! structured failures surfaced by the foreign backend.

use vstd::prelude::*;
use vstd::string::StringExecFns;

use crate::text::push_decimal_signed;
use crate::text::spec_decimal_signed;

verus! {

/// Foreign backend error code: internal backend failure.
pub const ERROR_INTERNAL: i32 = 0x02;
/// Foreign backend error code: the operation was canceled.
pub const ERROR_CANCELED: i32 = 0x03;
/// Foreign backend error code: an invalid handle was used.
pub const ERROR_INVALID_HANDLE: i32 = 0x04;
/// Foreign backend error code: the backend rejected the request rate.
pub const ERROR_TOO_MANY_REQUESTS: i32 = 0x05;
/// Foreign backend error code: the bandwidth limit was exceeded.
pub const ERROR_BANDWIDTH_LIMIT_EXCEEDED: i32 = 0x06;
/// Foreign backend error code: the bucket name is not valid.
pub const ERROR_BUCKET_NAME_INVALID: i32 = 0x10;
/// Foreign backend error code: the bucket already exists.
pub const ERROR_BUCKET_ALREADY_EXISTS: i32 = 0x11;
/// Foreign backend error code: the bucket is not empty.
pub const ERROR_BUCKET_NOT_EMPTY: i32 = 0x12;
/// Foreign backend error code: the bucket was not found.
pub const ERROR_BUCKET_NOT_FOUND: i32 = 0x13;
/// Foreign backend error code: the object key is not valid.
pub const ERROR_OBJECT_KEY_INVALID: i32 = 0x20;
/// Foreign backend error code: the object was not found.
pub const ERROR_OBJECT_NOT_FOUND: i32 = 0x21;
/// Foreign backend error code: the upload has already been completed.
pub const ERROR_UPLOAD_DONE: i32 = 0x22;

/// The error type that this crate uses for wrapping errors.
#[non_exhaustive]
#[derive(Debug)]
pub enum Error {
    /// Identifies errors produced by the internal implementation or by a
    /// violated assumption about the foreign boundary; these aren't expected
    /// to happen and are not recoverable.
    Internal(Internal),
    /// Identifies invalid arguments passed to a function or method.
    InvalidArguments(Args),
    /// Identifies a structured failure surfaced by the foreign backend.
    Uplink(Uplink),
}

/// Represents an invalid arguments error regarding the business domain.
///
/// `names` follows a fixed convention: a single parameter name; a list with
/// index annotations in square brackets; a struct with field annotations in
/// curly brackets; several culprits wrapped in round brackets; or `<all>`
/// when every argument is implicated.
#[derive(Debug)]
pub struct Args {
    /// One or several parameter names, following the convention above.
    pub names: String,
    /// A human friendly message that explains why the arguments are invalid.
    pub msg: String,
}

/// Wraps a structured failure returned by the foreign backend, preserving
/// its numeric code and raw message verbatim.
#[derive(Debug)]
pub struct Uplink {
    /// The error code returned by the foreign backend.
    pub code: i32,
    /// The raw error message returned by the foreign backend.
    pub details: String,
}

/// Represents an error that happens because of the violation of an internal
/// assumption, such as a malformed dual-outcome value or text returned by
/// the backend that is not validly encoded.
#[derive(Debug)]
pub struct Internal {
    /// A human friendly message to provide context for the error.
    pub ctx_msg: String,
    /// A description of the inner error that caused this internal error;
    /// `None` when the violated assumption was detected directly.
    pub inner: Option<String>,
}

/// Holds when `e` is an invalid-arguments error carrying exactly the given
/// parameter names and message.
pub open spec fn is_invalid_args(e: Error, names: Seq<char>, msg: Seq<char>) -> bool {
    &&& e matches Error::InvalidArguments(a)
    &&& a.names@ == names
    &&& a.msg@ == msg
}

/// Holds when `e` is an internal error carrying exactly the given context
/// message.
pub open spec fn is_internal(e: Error, ctx_msg: Seq<char>) -> bool {
    &&& e matches Error::Internal(d)
    &&& d.ctx_msg@ == ctx_msg
}

/// Holds when `e` wraps exactly the given foreign backend failure.
pub open spec fn is_uplink(e: Error, u: Uplink) -> bool {
    &&& e matches Error::Uplink(w)
    &&& w == u
}

impl Args {
    /// Creates a new invalid-arguments descriptor from the offending
    /// parameter names and an explanatory message.
    pub fn new(names: &str, msg: &str) -> (res: Self)
        ensures
            res.names@ == names@,
            res.msg@ == msg@,
    {
        Args { names: names.to_owned(), msg: msg.to_owned() }
    }
}

impl Error {
    /// Creates an `Internal` variant with the provided context message.
    pub fn new_internal(ctx_msg: &str) -> (res: Self)
        ensures
            is_internal(res, ctx_msg@),
            res matches Error::Internal(d) && d.inner is None,
    {
        Error::Internal(Internal { ctx_msg: ctx_msg.to_owned(), inner: None })
    }

    /// Creates an `Internal` variant from the provided context message and a
    /// description of the error that originated it.
    pub fn new_internal_with_inner(ctx_msg: &str, inner: &str) -> (res: Self)
        ensures
            is_internal(res, ctx_msg@),
            res matches Error::Internal(d) && d.inner matches Some(i) && i@ == inner@,
    {
        Error::Internal(Internal { ctx_msg: ctx_msg.to_owned(), inner: Some(inner.to_owned()) })
    }

    /// Convenient constructor for creating an `InvalidArguments` error.
    /// See [`Args`] for the convention that the `names` value follows.
    pub fn new_invalid_arguments(names: &str, msg: &str) -> (res: Self)
        ensures
            is_invalid_args(res, names@, msg@),
    {
        Error::InvalidArguments(Args::new(names, msg))
    }
}

/// The human friendly label that belongs to a foreign backend error code;
/// unrecognized codes fall back to "unknown".
pub open spec fn backend_label(code: i32) -> Seq<char> {
    if code == ERROR_INTERNAL {
        "internal"@
    } else if code == ERROR_CANCELED {
        "canceled"@
    } else if code == ERROR_INVALID_HANDLE {
        "invalid handle"@
    } else if code == ERROR_TOO_MANY_REQUESTS {
        "too many requests"@
    } else if code == ERROR_BANDWIDTH_LIMIT_EXCEEDED {
        "bandwidth limit exceeded"@
    } else if code == ERROR_BUCKET_NAME_INVALID {
        "invalid bucket name"@
    } else if code == ERROR_BUCKET_ALREADY_EXISTS {
        "bucket already exists"@
    } else if code == ERROR_BUCKET_NOT_EMPTY {
        "bucket not empty"@
    } else if code == ERROR_BUCKET_NOT_FOUND {
        "bucket not found"@
    } else if code == ERROR_OBJECT_KEY_INVALID {
        "invalid object key"@
    } else if code == ERROR_OBJECT_NOT_FOUND {
        "object not found"@
    } else if code == ERROR_UPLOAD_DONE {
        "upload done"@
    } else {
        "unknown"@
    }
}

/// The displayed form of a foreign backend failure: its code, the label
/// derived from it, and the raw details, each under its own caption.
pub open spec fn uplink_display(u: Uplink) -> Seq<char> {
    "Uplink error: code: "@ + spec_decimal_signed(u.code as int) + ", message: \""@
        + backend_label(u.code) + "\", details: \""@ + u.details@ + "\""@
}

/// The displayed form of an error: the offending argument names with the
/// explanation, the captioned foreign failure, or the context message.
pub open spec fn error_display(e: Error) -> Seq<char> {
    match e {
        Error::InvalidArguments(a) => a.names@ + " argurments have invalid values. "@ + a.msg@,
        Error::Uplink(u) => uplink_display(u),
        Error::Internal(d) => d.ctx_msg@,
    }
}

impl Args {
    /// Renders this descriptor the way it is displayed to a user.
    pub fn to_display_string(&self) -> (res: String)
        ensures
            res@ == self.names@ + " argurments have invalid values. "@ + self.msg@,
    {
        let mut s = self.names.clone();
        s.append(" argurments have invalid values. ");
        s.append(self.msg.as_str());
        proof {
            assert(s@ =~= self.names@ + " argurments have invalid values. "@ + self.msg@);
        }
        s
    }
}

impl Internal {
    /// Renders this error the way it is displayed to a user: its context
    /// message.
    pub fn to_display_string(&self) -> (res: String)
        ensures
            res@ == self.ctx_msg@,
    {
        self.ctx_msg.clone()
    }
}

impl Error {
    /// Renders this error the way it is displayed to a user.
    pub fn to_display_string(&self) -> (res: String)
        ensures
            res@ == error_display(*self),
    {
        match self {
            Error::InvalidArguments(a) => a.to_display_string(),
            Error::Uplink(u) => u.to_display_string(),
            Error::Internal(d) => d.to_display_string(),
        }
    }
}

impl Uplink {
    /// Renders this failure the way it is displayed to a user.
    pub fn to_display_string(&self) -> (res: String)
        ensures
            res@ == uplink_display(*self),
    {
        let mut s = "Uplink error: code: ".to_owned();
        push_decimal_signed(&mut s, self.code as i64);
        s.append(", message: \"");
        s.append(self.message());
        s.append("\", details: \"");
        s.append(self.details.as_str());
        s.append("\"");
        proof {
            assert(s@ =~= uplink_display(*self));
        }
        s
    }

    /// Returns the human friendly error message that belongs to this
    /// failure's error code.
    pub fn message(&self) -> (res: &'static str)
        ensures
            res@ == backend_label(self.code),
    {
        if self.code == ERROR_INTERNAL {
            "internal"
        } else if self.code == ERROR_CANCELED {
            "canceled"
        } else if self.code == ERROR_INVALID_HANDLE {
            "invalid handle"
        } else if self.code == ERROR_TOO_MANY_REQUESTS {
            "too many requests"
        } else if self.code == ERROR_BANDWIDTH_LIMIT_EXCEEDED {
            "bandwidth limit exceeded"
        } else if self.code == ERROR_BUCKET_NAME_INVALID {
            "invalid bucket name"
        } else if self.code == ERROR_BUCKET_ALREADY_EXISTS {
            "bucket already exists"
        } else if self.code == ERROR_BUCKET_NOT_EMPTY {
            "bucket not empty"
        } else if self.code == ERROR_BUCKET_NOT_FOUND {
            "bucket not found"
        } else if self.code == ERROR_OBJECT_KEY_INVALID {
            "invalid object key"
        } else if self.code == ERROR_OBJECT_NOT_FOUND {
            "object not found"
        } else if self.code == ERROR_UPLOAD_DONE {
            "upload done"
        } else {
            "unknown"
        }
    }
}

} // verus!
