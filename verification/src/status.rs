use vstd::prelude::*;

verus! {

/// Numeric value of each status code, as fixed by the wrapped transport.
pub const GRPC_STATUS_OK: i32 = 0;

pub const GRPC_STATUS_CANCELLED: i32 = 1;

pub const GRPC_STATUS_UNKNOWN: i32 = 2;

pub const GRPC_STATUS_INVALID_ARGUMENT: i32 = 3;

pub const GRPC_STATUS_DEADLINE_EXCEEDED: i32 = 4;

pub const GRPC_STATUS_NOT_FOUND: i32 = 5;

pub const GRPC_STATUS_ALREADY_EXISTS: i32 = 6;

pub const GRPC_STATUS_PERMISSION_DENIED: i32 = 7;

pub const GRPC_STATUS_RESOURCE_EXHAUSTED: i32 = 8;

pub const GRPC_STATUS_FAILED_PRECONDITION: i32 = 9;

pub const GRPC_STATUS_ABORTED: i32 = 10;

pub const GRPC_STATUS_OUT_OF_RANGE: i32 = 11;

pub const GRPC_STATUS_UNIMPLEMENTED: i32 = 12;

pub const GRPC_STATUS_INTERNAL: i32 = 13;

pub const GRPC_STATUS_UNAVAILABLE: i32 = 14;

pub const GRPC_STATUS_DATA_LOSS: i32 = 15;

pub const GRPC_STATUS_UNAUTHENTICATED: i32 = 16;

/// The fixed enumeration of call outcomes shared by every component.
#[derive(Clone, Copy, Debug, PartialEq, Eq, Structural)]
pub enum StatusCode {
    Okay,
    Cancelled,
    Unknown,
    InvalidArgument,
    DeadlineExceeded,
    NotFound,
    AlreadyExists,
    PermissionDenied,
    ResourceExhausted,
    FailedPrecondition,
    Aborted,
    OutOfRange,
    Unimplemented,
    Internal,
    Unavailable,
    DataLoss,
    Unauthenticated,
}

/// The numeric value assigned to each code by the external interface.
pub open spec fn code_num(c: StatusCode) -> i32 {
    match c {
        StatusCode::Okay => GRPC_STATUS_OK,
        StatusCode::Cancelled => GRPC_STATUS_CANCELLED,
        StatusCode::Unknown => GRPC_STATUS_UNKNOWN,
        StatusCode::InvalidArgument => GRPC_STATUS_INVALID_ARGUMENT,
        StatusCode::DeadlineExceeded => GRPC_STATUS_DEADLINE_EXCEEDED,
        StatusCode::NotFound => GRPC_STATUS_NOT_FOUND,
        StatusCode::AlreadyExists => GRPC_STATUS_ALREADY_EXISTS,
        StatusCode::PermissionDenied => GRPC_STATUS_PERMISSION_DENIED,
        StatusCode::ResourceExhausted => GRPC_STATUS_RESOURCE_EXHAUSTED,
        StatusCode::FailedPrecondition => GRPC_STATUS_FAILED_PRECONDITION,
        StatusCode::Aborted => GRPC_STATUS_ABORTED,
        StatusCode::OutOfRange => GRPC_STATUS_OUT_OF_RANGE,
        StatusCode::Unimplemented => GRPC_STATUS_UNIMPLEMENTED,
        StatusCode::Internal => GRPC_STATUS_INTERNAL,
        StatusCode::Unavailable => GRPC_STATUS_UNAVAILABLE,
        StatusCode::DataLoss => GRPC_STATUS_DATA_LOSS,
        StatusCode::Unauthenticated => GRPC_STATUS_UNAUTHENTICATED,
    }
}

impl StatusCode {
    /// The numeric value of this code.
    pub fn as_i32(&self) -> (r: i32)
        ensures
            r == code_num(*self),
    {
        match self {
            StatusCode::Okay => GRPC_STATUS_OK,
            StatusCode::Cancelled => GRPC_STATUS_CANCELLED,
            StatusCode::Unknown => GRPC_STATUS_UNKNOWN,
            StatusCode::InvalidArgument => GRPC_STATUS_INVALID_ARGUMENT,
            StatusCode::DeadlineExceeded => GRPC_STATUS_DEADLINE_EXCEEDED,
            StatusCode::NotFound => GRPC_STATUS_NOT_FOUND,
            StatusCode::AlreadyExists => GRPC_STATUS_ALREADY_EXISTS,
            StatusCode::PermissionDenied => GRPC_STATUS_PERMISSION_DENIED,
            StatusCode::ResourceExhausted => GRPC_STATUS_RESOURCE_EXHAUSTED,
            StatusCode::FailedPrecondition => GRPC_STATUS_FAILED_PRECONDITION,
            StatusCode::Aborted => GRPC_STATUS_ABORTED,
            StatusCode::OutOfRange => GRPC_STATUS_OUT_OF_RANGE,
            StatusCode::Unimplemented => GRPC_STATUS_UNIMPLEMENTED,
            StatusCode::Internal => GRPC_STATUS_INTERNAL,
            StatusCode::Unavailable => GRPC_STATUS_UNAVAILABLE,
            StatusCode::DataLoss => GRPC_STATUS_DATA_LOSS,
            StatusCode::Unauthenticated => GRPC_STATUS_UNAUTHENTICATED,
        }
    }

    /// The code whose numeric value is `n`, if `n` is one of the seventeen
    /// assigned values; `None` for every other integer.
    pub fn from_i32(n: i32) -> (r: Option<StatusCode>)
        ensures
            r is Some <==> 0 <= n <= 16,
            r is Some ==> code_num(r->0) == n,
    {
        if n == GRPC_STATUS_OK {
            Some(StatusCode::Okay)
        } else if n == GRPC_STATUS_CANCELLED {
            Some(StatusCode::Cancelled)
        } else if n == GRPC_STATUS_UNKNOWN {
            Some(StatusCode::Unknown)
        } else if n == GRPC_STATUS_INVALID_ARGUMENT {
            Some(StatusCode::InvalidArgument)
        } else if n == GRPC_STATUS_DEADLINE_EXCEEDED {
            Some(StatusCode::DeadlineExceeded)
        } else if n == GRPC_STATUS_NOT_FOUND {
            Some(StatusCode::NotFound)
        } else if n == GRPC_STATUS_ALREADY_EXISTS {
            Some(StatusCode::AlreadyExists)
        } else if n == GRPC_STATUS_PERMISSION_DENIED {
            Some(StatusCode::PermissionDenied)
        } else if n == GRPC_STATUS_RESOURCE_EXHAUSTED {
            Some(StatusCode::ResourceExhausted)
        } else if n == GRPC_STATUS_FAILED_PRECONDITION {
            Some(StatusCode::FailedPrecondition)
        } else if n == GRPC_STATUS_ABORTED {
            Some(StatusCode::Aborted)
        } else if n == GRPC_STATUS_OUT_OF_RANGE {
            Some(StatusCode::OutOfRange)
        } else if n == GRPC_STATUS_UNIMPLEMENTED {
            Some(StatusCode::Unimplemented)
        } else if n == GRPC_STATUS_INTERNAL {
            Some(StatusCode::Internal)
        } else if n == GRPC_STATUS_UNAVAILABLE {
            Some(StatusCode::Unavailable)
        } else if n == GRPC_STATUS_DATA_LOSS {
            Some(StatusCode::DataLoss)
        } else if n == GRPC_STATUS_UNAUTHENTICATED {
            Some(StatusCode::Unauthenticated)
        } else {
            None
        }
    }
}

/// Decimal rendering of each code's numeric value, used by `to_string`.
pub open spec fn code_digits(c: StatusCode) -> Seq<char> {
    match c {
        StatusCode::Okay => "0"@,
        StatusCode::Cancelled => "1"@,
        StatusCode::Unknown => "2"@,
        StatusCode::InvalidArgument => "3"@,
        StatusCode::DeadlineExceeded => "4"@,
        StatusCode::NotFound => "5"@,
        StatusCode::AlreadyExists => "6"@,
        StatusCode::PermissionDenied => "7"@,
        StatusCode::ResourceExhausted => "8"@,
        StatusCode::FailedPrecondition => "9"@,
        StatusCode::Aborted => "10"@,
        StatusCode::OutOfRange => "11"@,
        StatusCode::Unimplemented => "12"@,
        StatusCode::Internal => "13"@,
        StatusCode::Unavailable => "14"@,
        StatusCode::DataLoss => "15"@,
        StatusCode::Unauthenticated => "16"@,
    }
}

/// The rendering `Status::to_string` produces.
pub open spec fn status_rendering(s: Status) -> Seq<char> {
    "Status(code="@ + code_digits(s.code) + ", message='"@ + s.message@ + "', details='"@
        + s.details@ + "')"@
}

/// Immutable outcome descriptor for a finished call: a code from the fixed
/// enumeration, a message, and free-form details.
#[derive(Debug)]
pub struct Status {
    pub code: StatusCode,
    pub message: String,
    pub details: String,
}

impl Status {
    /// A status with the given code and message; absent details default to
    /// the empty string.
    pub fn new(code: StatusCode, message: String, details: Option<String>) -> (s: Status)
        ensures
            s.code == code,
            s.message@ == message@,
            s.details@ == match details {
                Some(d) => d@,
                None => Seq::<char>::empty(),
            },
    {
        let details_or_empty: String = match details {
            Some(d) => d,
            None => String::new(),
        };
        Status { code, message, details: details_or_empty }
    }

    /// The outcome recorded when a call's deadline elapses before it
    /// finishes.
    pub fn deadline_exceeded() -> (s: Status)
        ensures
            s.code == StatusCode::DeadlineExceeded,
            s.message@ == "Deadline exceeded"@,
            s.details@ == Seq::<char>::empty(),
    {
        Status {
            code: StatusCode::DeadlineExceeded,
            message: String::from_str("Deadline exceeded"),
            details: String::new(),
        }
    }

    pub fn get_code(&self) -> (r: i32)
        ensures
            r == code_num(self.code),
    {
        self.code.as_i32()
    }

    pub fn get_message(&self) -> (r: String)
        ensures
            r@ == self.message@,
    {
        self.message.clone()
    }

    pub fn get_details(&self) -> (r: String)
        ensures
            r@ == self.details@,
    {
        self.details.clone()
    }

    pub fn is_ok(&self) -> (r: bool)
        ensures
            r == (self.code == StatusCode::Okay),
    {
        matches!(self.code, StatusCode::Okay)
    }

    pub fn is_cancelled(&self) -> (r: bool)
        ensures
            r == (self.code == StatusCode::Cancelled),
    {
        matches!(self.code, StatusCode::Cancelled)
    }

    pub fn is_unknown(&self) -> (r: bool)
        ensures
            r == (self.code == StatusCode::Unknown),
    {
        matches!(self.code, StatusCode::Unknown)
    }

    pub fn is_invalid_argument(&self) -> (r: bool)
        ensures
            r == (self.code == StatusCode::InvalidArgument),
    {
        matches!(self.code, StatusCode::InvalidArgument)
    }

    pub fn is_deadline_exceeded(&self) -> (r: bool)
        ensures
            r == (self.code == StatusCode::DeadlineExceeded),
    {
        matches!(self.code, StatusCode::DeadlineExceeded)
    }

    pub fn is_not_found(&self) -> (r: bool)
        ensures
            r == (self.code == StatusCode::NotFound),
    {
        matches!(self.code, StatusCode::NotFound)
    }

    pub fn is_already_exists(&self) -> (r: bool)
        ensures
            r == (self.code == StatusCode::AlreadyExists),
    {
        matches!(self.code, StatusCode::AlreadyExists)
    }

    pub fn is_permission_denied(&self) -> (r: bool)
        ensures
            r == (self.code == StatusCode::PermissionDenied),
    {
        matches!(self.code, StatusCode::PermissionDenied)
    }

    pub fn is_unauthenticated(&self) -> (r: bool)
        ensures
            r == (self.code == StatusCode::Unauthenticated),
    {
        matches!(self.code, StatusCode::Unauthenticated)
    }

    pub fn is_resource_exhausted(&self) -> (r: bool)
        ensures
            r == (self.code == StatusCode::ResourceExhausted),
    {
        matches!(self.code, StatusCode::ResourceExhausted)
    }

    pub fn is_failed_precondition(&self) -> (r: bool)
        ensures
            r == (self.code == StatusCode::FailedPrecondition),
    {
        matches!(self.code, StatusCode::FailedPrecondition)
    }

    pub fn is_aborted(&self) -> (r: bool)
        ensures
            r == (self.code == StatusCode::Aborted),
    {
        matches!(self.code, StatusCode::Aborted)
    }

    pub fn is_out_of_range(&self) -> (r: bool)
        ensures
            r == (self.code == StatusCode::OutOfRange),
    {
        matches!(self.code, StatusCode::OutOfRange)
    }

    pub fn is_unimplemented(&self) -> (r: bool)
        ensures
            r == (self.code == StatusCode::Unimplemented),
    {
        matches!(self.code, StatusCode::Unimplemented)
    }

    pub fn is_internal(&self) -> (r: bool)
        ensures
            r == (self.code == StatusCode::Internal),
    {
        matches!(self.code, StatusCode::Internal)
    }

    pub fn is_unavailable(&self) -> (r: bool)
        ensures
            r == (self.code == StatusCode::Unavailable),
    {
        matches!(self.code, StatusCode::Unavailable)
    }

    pub fn is_data_loss(&self) -> (r: bool)
        ensures
            r == (self.code == StatusCode::DataLoss),
    {
        matches!(self.code, StatusCode::DataLoss)
    }

    /// Decimal rendering of this status's code.
    pub fn code_str(&self) -> (r: &'static str)
        ensures
            r@ == code_digits(self.code),
    {
        match self.code {
            StatusCode::Okay => "0",
            StatusCode::Cancelled => "1",
            StatusCode::Unknown => "2",
            StatusCode::InvalidArgument => "3",
            StatusCode::DeadlineExceeded => "4",
            StatusCode::NotFound => "5",
            StatusCode::AlreadyExists => "6",
            StatusCode::PermissionDenied => "7",
            StatusCode::ResourceExhausted => "8",
            StatusCode::FailedPrecondition => "9",
            StatusCode::Aborted => "10",
            StatusCode::OutOfRange => "11",
            StatusCode::Unimplemented => "12",
            StatusCode::Internal => "13",
            StatusCode::Unavailable => "14",
            StatusCode::DataLoss => "15",
            StatusCode::Unauthenticated => "16",
        }
    }

    /// A one-line rendering of the whole status.
    pub fn to_string(&self) -> (r: String)
        ensures
            r@ == status_rendering(*self),
    {
        let mut out: String = String::from_str("Status(code=");
        out.append(self.code_str());
        out.append(", message='");
        out.append(self.message.as_str());
        out.append("', details='");
        out.append(self.details.as_str());
        out.append("')");
        out
    }
}

} // verus!
