//! The error vocabulary of the RPC layer: Connect error codes, the HTTP
//! status that goes with each, and the per-service error enums that convert
//! to and from that wire form.
use vstd::prelude::*;
use crate::text::{concat, str_eq};

verus! {

pub const STATUS_BAD_REQUEST: u16 = 400;
pub const STATUS_UNAUTHORIZED: u16 = 401;
pub const STATUS_FORBIDDEN: u16 = 403;
pub const STATUS_NOT_FOUND: u16 = 404;
pub const STATUS_CONFLICT: u16 = 409;
pub const STATUS_UNSUPPORTED_MEDIA_TYPE: u16 = 415;
pub const STATUS_INTERNAL_SERVER_ERROR: u16 = 500;

/// A Connect error code, serialised in snake case.
#[derive(Debug, Clone, Copy, PartialEq, Eq)]
pub enum ErrorCode {
    InvalidArgument,
    NotFound,
    AlreadyExists,
    PermissionDenied,
    Unauthenticated,
    FailedPrecondition,
    Internal,
    UnsupportedMediaType,
}

impl ErrorCode {
    /// The wire name of the code.
    pub open spec fn name(self) -> Seq<char> {
        match self {
            ErrorCode::InvalidArgument => "invalid_argument"@,
            ErrorCode::NotFound => "not_found"@,
            ErrorCode::AlreadyExists => "already_exists"@,
            ErrorCode::PermissionDenied => "permission_denied"@,
            ErrorCode::Unauthenticated => "unauthenticated"@,
            ErrorCode::FailedPrecondition => "failed_precondition"@,
            ErrorCode::Internal => "internal"@,
            ErrorCode::UnsupportedMediaType => "unsupported_media_type"@,
        }
    }

    /// The wire name of the code.
    pub fn as_str(self) -> (r: &'static str)
        ensures
            r@ == self.name(),
    {
        match self {
            ErrorCode::InvalidArgument => "invalid_argument",
            ErrorCode::NotFound => "not_found",
            ErrorCode::AlreadyExists => "already_exists",
            ErrorCode::PermissionDenied => "permission_denied",
            ErrorCode::Unauthenticated => "unauthenticated",
            ErrorCode::FailedPrecondition => "failed_precondition",
            ErrorCode::Internal => "internal",
            ErrorCode::UnsupportedMediaType => "unsupported_media_type",
        }
    }

    /// The code whose wire name is `name`, if there is one.
    pub fn from_name(name: &str) -> (r: Option<ErrorCode>)
        ensures
            r matches Some(c) ==> c.name() == name@,
            r is None ==> forall|c: ErrorCode| #[trigger] c.name() != name@,
    {
        proof {
            reveal_strlit("invalid_argument");
            reveal_strlit("not_found");
            reveal_strlit("already_exists");
            reveal_strlit("permission_denied");
            reveal_strlit("unauthenticated");
            reveal_strlit("failed_precondition");
            reveal_strlit("internal");
            reveal_strlit("unsupported_media_type");
        }
        if str_eq(name, "invalid_argument") {
            Some(ErrorCode::InvalidArgument)
        } else if str_eq(name, "not_found") {
            Some(ErrorCode::NotFound)
        } else if str_eq(name, "already_exists") {
            Some(ErrorCode::AlreadyExists)
        } else if str_eq(name, "permission_denied") {
            Some(ErrorCode::PermissionDenied)
        } else if str_eq(name, "unauthenticated") {
            Some(ErrorCode::Unauthenticated)
        } else if str_eq(name, "failed_precondition") {
            Some(ErrorCode::FailedPrecondition)
        } else if str_eq(name, "internal") {
            Some(ErrorCode::Internal)
        } else if str_eq(name, "unsupported_media_type") {
            Some(ErrorCode::UnsupportedMediaType)
        } else {
            assert forall|c: ErrorCode| #[trigger] c.name() != name@ by {
                match c {
                    ErrorCode::InvalidArgument => {},
                    ErrorCode::NotFound => {},
                    ErrorCode::AlreadyExists => {},
                    ErrorCode::PermissionDenied => {},
                    ErrorCode::Unauthenticated => {},
                    ErrorCode::FailedPrecondition => {},
                    ErrorCode::Internal => {},
                    ErrorCode::UnsupportedMediaType => {},
                }
            }
            None
        }
    }
}

/// Each code has its own wire name, so reading a name back gives the code
/// that was written.
pub proof fn lemma_code_names_distinct(a: ErrorCode, b: ErrorCode)
    ensures
        a.name() == b.name() ==> a == b,
{
    reveal_strlit("invalid_argument");
    reveal_strlit("not_found");
    reveal_strlit("already_exists");
    reveal_strlit("permission_denied");
    reveal_strlit("unauthenticated");
    reveal_strlit("failed_precondition");
    reveal_strlit("internal");
    reveal_strlit("unsupported_media_type");
    if a.name() == b.name() {
        assert(a.name().len() == b.name().len());
    }
}

/// The JSON body of an error response.
#[derive(Debug, Clone, PartialEq, Eq)]
pub struct ConnectError {
    pub code: ErrorCode,
    pub message: String,
}

/// An error response: HTTP status and body.
#[derive(Debug, Clone, PartialEq, Eq)]
pub struct RpcError {
    pub status: u16,
    pub error: ConnectError,
}

impl RpcError {
    /// An error response with the given parts.
    pub fn new(status: u16, code: ErrorCode, message: &str) -> (r: RpcError)
        ensures
            r.status == status,
            r.error.code == code,
            r.error.message@ == message@,
    {
        RpcError { status, error: ConnectError { code, message: message.to_owned() } }
    }

    /// 400 with `invalid_argument`.
    pub fn invalid_argument(message: &str) -> (r: RpcError)
        ensures
            r.status == STATUS_BAD_REQUEST,
            r.error.code == ErrorCode::InvalidArgument,
            r.error.message@ == message@,
    {
        RpcError::new(STATUS_BAD_REQUEST, ErrorCode::InvalidArgument, message)
    }

    /// 404 with `not_found`.
    pub fn not_found(message: &str) -> (r: RpcError)
        ensures
            r.status == STATUS_NOT_FOUND,
            r.error.code == ErrorCode::NotFound,
            r.error.message@ == message@,
    {
        RpcError::new(STATUS_NOT_FOUND, ErrorCode::NotFound, message)
    }

    /// 403 with `permission_denied`.
    pub fn permission_denied(message: &str) -> (r: RpcError)
        ensures
            r.status == STATUS_FORBIDDEN,
            r.error.code == ErrorCode::PermissionDenied,
            r.error.message@ == message@,
    {
        RpcError::new(STATUS_FORBIDDEN, ErrorCode::PermissionDenied, message)
    }

    /// 500 with `internal`.
    pub fn internal(message: &str) -> (r: RpcError)
        ensures
            r.status == STATUS_INTERNAL_SERVER_ERROR,
            r.error.code == ErrorCode::Internal,
            r.error.message@ == message@,
    {
        RpcError::new(STATUS_INTERNAL_SERVER_ERROR, ErrorCode::Internal, message)
    }

    /// The response for a failed database call, whose error displays as
    /// `detail`: 500 with message `db error: <detail>`.
    pub fn db_error(detail: &str) -> (r: RpcError)
        ensures
            r.status == STATUS_INTERNAL_SERVER_ERROR,
            r.error.code == ErrorCode::Internal,
            r.error.message@ == "db error: "@ + detail@,
    {
        let message = concat("db error: ", detail);
        RpcError::new(STATUS_INTERNAL_SERVER_ERROR, ErrorCode::Internal, message.as_str())
    }
}

/// The code the session and permission middlewares answer with for a
/// status: 401 is `unauthenticated`, 500 `internal`, anything else
/// `permission_denied`.
pub open spec fn middleware_code_spec(status: u16) -> ErrorCode {
    if status == STATUS_UNAUTHORIZED {
        ErrorCode::Unauthenticated
    } else if status == STATUS_INTERNAL_SERVER_ERROR {
        ErrorCode::Internal
    } else {
        ErrorCode::PermissionDenied
    }
}

/// The error response a middleware sends for `status` and `message`.
pub fn middleware_error(status: u16, message: &str) -> (r: RpcError)
    ensures
        r.status == status,
        r.error.code == middleware_code_spec(status),
        r.error.message@ == message@,
{
    let code = if status == STATUS_UNAUTHORIZED {
        ErrorCode::Unauthenticated
    } else if status == STATUS_INTERNAL_SERVER_ERROR {
        ErrorCode::Internal
    } else {
        ErrorCode::PermissionDenied
    };
    RpcError::new(status, code, message)
}

/// The service error that a status alone maps to, for codes the service
/// enums do not carry: 400, 404, 409, 403, 401, and anything else is internal.
pub open spec fn fallback_kind(status: u16) -> ErrorCode {
    if status == STATUS_BAD_REQUEST {
        ErrorCode::InvalidArgument
    } else if status == STATUS_NOT_FOUND {
        ErrorCode::NotFound
    } else if status == STATUS_CONFLICT {
        ErrorCode::AlreadyExists
    } else if status == STATUS_FORBIDDEN {
        ErrorCode::PermissionDenied
    } else if status == STATUS_UNAUTHORIZED {
        ErrorCode::Unauthenticated
    } else {
        ErrorCode::Internal
    }
}

fn fallback_code(status: u16) -> (r: ErrorCode)
    ensures
        r == fallback_kind(status),
{
    if status == STATUS_BAD_REQUEST {
        ErrorCode::InvalidArgument
    } else if status == STATUS_NOT_FOUND {
        ErrorCode::NotFound
    } else if status == STATUS_CONFLICT {
        ErrorCode::AlreadyExists
    } else if status == STATUS_FORBIDDEN {
        ErrorCode::PermissionDenied
    } else if status == STATUS_UNAUTHORIZED {
        ErrorCode::Unauthenticated
    } else {
        ErrorCode::Internal
    }
}

/// The status each service error kind is sent with.
pub open spec fn status_for_kind(code: ErrorCode) -> u16 {
    match code {
        ErrorCode::InvalidArgument => STATUS_BAD_REQUEST,
        ErrorCode::NotFound => STATUS_NOT_FOUND,
        ErrorCode::AlreadyExists => STATUS_CONFLICT,
        ErrorCode::FailedPrecondition => STATUS_CONFLICT,
        ErrorCode::PermissionDenied => STATUS_FORBIDDEN,
        ErrorCode::Unauthenticated => STATUS_UNAUTHORIZED,
        ErrorCode::Internal => STATUS_INTERNAL_SERVER_ERROR,
        ErrorCode::UnsupportedMediaType => STATUS_UNSUPPORTED_MEDIA_TYPE,
    }
}

fn status_for(code: ErrorCode) -> (r: u16)
    ensures
        r == status_for_kind(code),
{
    match code {
        ErrorCode::InvalidArgument => STATUS_BAD_REQUEST,
        ErrorCode::NotFound => STATUS_NOT_FOUND,
        ErrorCode::AlreadyExists => STATUS_CONFLICT,
        ErrorCode::FailedPrecondition => STATUS_CONFLICT,
        ErrorCode::PermissionDenied => STATUS_FORBIDDEN,
        ErrorCode::Unauthenticated => STATUS_UNAUTHORIZED,
        ErrorCode::Internal => STATUS_INTERNAL_SERVER_ERROR,
        ErrorCode::UnsupportedMediaType => STATUS_UNSUPPORTED_MEDIA_TYPE,
    }
}

/// Errors of the order service; each carries the message sent to the client.
#[derive(Debug, Clone, PartialEq, Eq)]
pub enum OrderError {
    InvalidArgument(String),
    NotFound(String),
    AlreadyExists(String),
    FailedPrecondition(String),
    PermissionDenied(String),
    Unauthenticated(String),
    Internal(String),
}

impl OrderError {
    /// The error code this error is reported with.
    pub open spec fn kind(self) -> ErrorCode {
        match self {
            OrderError::InvalidArgument(_) => ErrorCode::InvalidArgument,
            OrderError::NotFound(_) => ErrorCode::NotFound,
            OrderError::AlreadyExists(_) => ErrorCode::AlreadyExists,
            OrderError::FailedPrecondition(_) => ErrorCode::FailedPrecondition,
            OrderError::PermissionDenied(_) => ErrorCode::PermissionDenied,
            OrderError::Unauthenticated(_) => ErrorCode::Unauthenticated,
            OrderError::Internal(_) => ErrorCode::Internal,
        }
    }

    /// The message this error carries.
    pub open spec fn payload(self) -> String {
        match self {
            OrderError::InvalidArgument(m) => m,
            OrderError::NotFound(m) => m,
            OrderError::AlreadyExists(m) => m,
            OrderError::FailedPrecondition(m) => m,
            OrderError::PermissionDenied(m) => m,
            OrderError::Unauthenticated(m) => m,
            OrderError::Internal(m) => m,
        }
    }

    /// The error of kind `code` carrying `m`; a code this service does not
    /// carry is internal.
    pub open spec fn build(code: ErrorCode, m: String) -> OrderError {
        match code {
            ErrorCode::InvalidArgument => OrderError::InvalidArgument(m),
            ErrorCode::NotFound => OrderError::NotFound(m),
            ErrorCode::AlreadyExists => OrderError::AlreadyExists(m),
            ErrorCode::FailedPrecondition => OrderError::FailedPrecondition(m),
            ErrorCode::PermissionDenied => OrderError::PermissionDenied(m),
            ErrorCode::Unauthenticated => OrderError::Unauthenticated(m),
            ErrorCode::Internal => OrderError::Internal(m),
            _ => OrderError::Internal(m),
        }
    }

    pub fn invalid_argument(message: &str) -> (r: OrderError)
        ensures
            r == OrderError::InvalidArgument(r.payload()),
            r.payload()@ == message@,
    {
        OrderError::InvalidArgument(message.to_owned())
    }

    pub fn not_found(message: &str) -> (r: OrderError)
        ensures
            r == OrderError::NotFound(r.payload()),
            r.payload()@ == message@,
    {
        OrderError::NotFound(message.to_owned())
    }

    pub fn already_exists(message: &str) -> (r: OrderError)
        ensures
            r == OrderError::AlreadyExists(r.payload()),
            r.payload()@ == message@,
    {
        OrderError::AlreadyExists(message.to_owned())
    }

    pub fn failed_precondition(message: &str) -> (r: OrderError)
        ensures
            r == OrderError::FailedPrecondition(r.payload()),
            r.payload()@ == message@,
    {
        OrderError::FailedPrecondition(message.to_owned())
    }

    pub fn permission_denied(message: &str) -> (r: OrderError)
        ensures
            r == OrderError::PermissionDenied(r.payload()),
            r.payload()@ == message@,
    {
        OrderError::PermissionDenied(message.to_owned())
    }

    pub fn unauthenticated(message: &str) -> (r: OrderError)
        ensures
            r == OrderError::Unauthenticated(r.payload()),
            r.payload()@ == message@,
    {
        OrderError::Unauthenticated(message.to_owned())
    }

    pub fn internal(message: &str) -> (r: OrderError)
        ensures
            r == OrderError::Internal(r.payload()),
            r.payload()@ == message@,
    {
        OrderError::Internal(message.to_owned())
    }

    /// The error for a failed database call whose error displays as `detail`.
    pub fn from_db_error(detail: &str) -> (r: OrderError)
        ensures
            r == OrderError::Internal(r.payload()),
            r.payload()@ == "db error: "@ + detail@,
    {
        OrderError::Internal(concat("db error: ", detail))
    }

    /// The status and body this error is answered with.
    pub fn into_connect(self) -> (r: RpcError)
        ensures
            r.status == status_for_kind(self.kind()),
            r.error.code == self.kind(),
            r.error.message == self.payload(),
    {
        match self {
            OrderError::InvalidArgument(message) => RpcError {
                status: status_for(ErrorCode::InvalidArgument),
                error: ConnectError { code: ErrorCode::InvalidArgument, message },
            },
            OrderError::NotFound(message) => RpcError {
                status: status_for(ErrorCode::NotFound),
                error: ConnectError { code: ErrorCode::NotFound, message },
            },
            OrderError::AlreadyExists(message) => RpcError {
                status: status_for(ErrorCode::AlreadyExists),
                error: ConnectError { code: ErrorCode::AlreadyExists, message },
            },
            OrderError::FailedPrecondition(message) => RpcError {
                status: status_for(ErrorCode::FailedPrecondition),
                error: ConnectError { code: ErrorCode::FailedPrecondition, message },
            },
            OrderError::PermissionDenied(message) => RpcError {
                status: status_for(ErrorCode::PermissionDenied),
                error: ConnectError { code: ErrorCode::PermissionDenied, message },
            },
            OrderError::Unauthenticated(message) => RpcError {
                status: status_for(ErrorCode::Unauthenticated),
                error: ConnectError { code: ErrorCode::Unauthenticated, message },
            },
            OrderError::Internal(message) => RpcError {
                status: status_for(ErrorCode::Internal),
                error: ConnectError { code: ErrorCode::Internal, message },
            },
        }
    }

    /// The error a response from another service maps to: by its code, and
    /// by its status where the code is one this service does not carry.
    pub fn from_connect(value: RpcError) -> (r: OrderError)
        ensures
            r == OrderError::build(
                if value.error.code == ErrorCode::UnsupportedMediaType {
                    fallback_kind(value.status)
                } else {
                    value.error.code
                },
                value.error.message,
            ),
    {
        let RpcError { status, error } = value;
        let code = match error.code {
            ErrorCode::UnsupportedMediaType => fallback_code(status),
            other => other,
        };
        match code {
            ErrorCode::InvalidArgument => OrderError::InvalidArgument(error.message),
            ErrorCode::NotFound => OrderError::NotFound(error.message),
            ErrorCode::AlreadyExists => OrderError::AlreadyExists(error.message),
            ErrorCode::FailedPrecondition => OrderError::FailedPrecondition(error.message),
            ErrorCode::PermissionDenied => OrderError::PermissionDenied(error.message),
            ErrorCode::Unauthenticated => OrderError::Unauthenticated(error.message),
            ErrorCode::Internal => OrderError::Internal(error.message),
            _ => OrderError::Internal(error.message),
        }
    }
}

/// An error sent out with `into_connect` and read back with `from_connect`
/// is the same error: `sent` is any response that `into_connect(e)` may
/// return, and the conclusion is what `from_connect(sent)` returns.
pub proof fn lemma_ordererror_connect_roundtrip(e: OrderError, sent: RpcError)
    requires
        sent.status == status_for_kind(e.kind()),
        sent.error.code == e.kind(),
        sent.error.message == e.payload(),
    ensures
        OrderError::build(
            if sent.error.code == ErrorCode::UnsupportedMediaType {
                fallback_kind(sent.status)
            } else {
                sent.error.code
            },
            sent.error.message,
        ) == e,
{
}

/// Errors of the cart service; each carries the message sent to the client.
#[derive(Debug, Clone, PartialEq, Eq)]
pub enum CartError {
    InvalidArgument(String),
    NotFound(String),
    AlreadyExists(String),
    FailedPrecondition(String),
    PermissionDenied(String),
    Unauthenticated(String),
    Internal(String),
}

impl CartError {
    /// The error code this error is reported with.
    pub open spec fn kind(self) -> ErrorCode {
        match self {
            CartError::InvalidArgument(_) => ErrorCode::InvalidArgument,
            CartError::NotFound(_) => ErrorCode::NotFound,
            CartError::AlreadyExists(_) => ErrorCode::AlreadyExists,
            CartError::FailedPrecondition(_) => ErrorCode::FailedPrecondition,
            CartError::PermissionDenied(_) => ErrorCode::PermissionDenied,
            CartError::Unauthenticated(_) => ErrorCode::Unauthenticated,
            CartError::Internal(_) => ErrorCode::Internal,
        }
    }

    /// The message this error carries.
    pub open spec fn payload(self) -> String {
        match self {
            CartError::InvalidArgument(m) => m,
            CartError::NotFound(m) => m,
            CartError::AlreadyExists(m) => m,
            CartError::FailedPrecondition(m) => m,
            CartError::PermissionDenied(m) => m,
            CartError::Unauthenticated(m) => m,
            CartError::Internal(m) => m,
        }
    }

    /// The error of kind `code` carrying `m`; a code this service does not
    /// carry is internal.
    pub open spec fn build(code: ErrorCode, m: String) -> CartError {
        match code {
            ErrorCode::InvalidArgument => CartError::InvalidArgument(m),
            ErrorCode::NotFound => CartError::NotFound(m),
            ErrorCode::AlreadyExists => CartError::AlreadyExists(m),
            ErrorCode::FailedPrecondition => CartError::FailedPrecondition(m),
            ErrorCode::PermissionDenied => CartError::PermissionDenied(m),
            ErrorCode::Unauthenticated => CartError::Unauthenticated(m),
            ErrorCode::Internal => CartError::Internal(m),
            _ => CartError::Internal(m),
        }
    }

    pub fn invalid_argument(message: &str) -> (r: CartError)
        ensures
            r == CartError::InvalidArgument(r.payload()),
            r.payload()@ == message@,
    {
        CartError::InvalidArgument(message.to_owned())
    }

    pub fn not_found(message: &str) -> (r: CartError)
        ensures
            r == CartError::NotFound(r.payload()),
            r.payload()@ == message@,
    {
        CartError::NotFound(message.to_owned())
    }

    pub fn already_exists(message: &str) -> (r: CartError)
        ensures
            r == CartError::AlreadyExists(r.payload()),
            r.payload()@ == message@,
    {
        CartError::AlreadyExists(message.to_owned())
    }

    pub fn failed_precondition(message: &str) -> (r: CartError)
        ensures
            r == CartError::FailedPrecondition(r.payload()),
            r.payload()@ == message@,
    {
        CartError::FailedPrecondition(message.to_owned())
    }

    pub fn permission_denied(message: &str) -> (r: CartError)
        ensures
            r == CartError::PermissionDenied(r.payload()),
            r.payload()@ == message@,
    {
        CartError::PermissionDenied(message.to_owned())
    }

    pub fn unauthenticated(message: &str) -> (r: CartError)
        ensures
            r == CartError::Unauthenticated(r.payload()),
            r.payload()@ == message@,
    {
        CartError::Unauthenticated(message.to_owned())
    }

    pub fn internal(message: &str) -> (r: CartError)
        ensures
            r == CartError::Internal(r.payload()),
            r.payload()@ == message@,
    {
        CartError::Internal(message.to_owned())
    }

    /// The error for a failed database call whose error displays as `detail`.
    pub fn from_db_error(detail: &str) -> (r: CartError)
        ensures
            r == CartError::Internal(r.payload()),
            r.payload()@ == "db error: "@ + detail@,
    {
        CartError::Internal(concat("db error: ", detail))
    }

    /// The status and body this error is answered with.
    pub fn into_connect(self) -> (r: RpcError)
        ensures
            r.status == status_for_kind(self.kind()),
            r.error.code == self.kind(),
            r.error.message == self.payload(),
    {
        match self {
            CartError::InvalidArgument(message) => RpcError {
                status: status_for(ErrorCode::InvalidArgument),
                error: ConnectError { code: ErrorCode::InvalidArgument, message },
            },
            CartError::NotFound(message) => RpcError {
                status: status_for(ErrorCode::NotFound),
                error: ConnectError { code: ErrorCode::NotFound, message },
            },
            CartError::AlreadyExists(message) => RpcError {
                status: status_for(ErrorCode::AlreadyExists),
                error: ConnectError { code: ErrorCode::AlreadyExists, message },
            },
            CartError::FailedPrecondition(message) => RpcError {
                status: status_for(ErrorCode::FailedPrecondition),
                error: ConnectError { code: ErrorCode::FailedPrecondition, message },
            },
            CartError::PermissionDenied(message) => RpcError {
                status: status_for(ErrorCode::PermissionDenied),
                error: ConnectError { code: ErrorCode::PermissionDenied, message },
            },
            CartError::Unauthenticated(message) => RpcError {
                status: status_for(ErrorCode::Unauthenticated),
                error: ConnectError { code: ErrorCode::Unauthenticated, message },
            },
            CartError::Internal(message) => RpcError {
                status: status_for(ErrorCode::Internal),
                error: ConnectError { code: ErrorCode::Internal, message },
            },
        }
    }

    /// The error a response from another service maps to: by its code, and
    /// by its status where the code is one this service does not carry.
    pub fn from_connect(value: RpcError) -> (r: CartError)
        ensures
            r == CartError::build(
                if value.error.code == ErrorCode::UnsupportedMediaType {
                    fallback_kind(value.status)
                } else {
                    value.error.code
                },
                value.error.message,
            ),
    {
        let RpcError { status, error } = value;
        let code = match error.code {
            ErrorCode::UnsupportedMediaType => fallback_code(status),
            other => other,
        };
        match code {
            ErrorCode::InvalidArgument => CartError::InvalidArgument(error.message),
            ErrorCode::NotFound => CartError::NotFound(error.message),
            ErrorCode::AlreadyExists => CartError::AlreadyExists(error.message),
            ErrorCode::FailedPrecondition => CartError::FailedPrecondition(error.message),
            ErrorCode::PermissionDenied => CartError::PermissionDenied(error.message),
            ErrorCode::Unauthenticated => CartError::Unauthenticated(error.message),
            ErrorCode::Internal => CartError::Internal(error.message),
            _ => CartError::Internal(error.message),
        }
    }
}

/// An error sent out with `into_connect` and read back with `from_connect`
/// is the same error: `sent` is any response that `into_connect(e)` may
/// return, and the conclusion is what `from_connect(sent)` returns.
pub proof fn lemma_carterror_connect_roundtrip(e: CartError, sent: RpcError)
    requires
        sent.status == status_for_kind(e.kind()),
        sent.error.code == e.kind(),
        sent.error.message == e.payload(),
    ensures
        CartError::build(
            if sent.error.code == ErrorCode::UnsupportedMediaType {
                fallback_kind(sent.status)
            } else {
                sent.error.code
            },
            sent.error.message,
        ) == e,
{
}

/// Errors of the identity service; each carries the message sent to the client.
#[derive(Debug, Clone, PartialEq, Eq)]
pub enum IdentityError {
    InvalidArgument(String),
    NotFound(String),
    AlreadyExists(String),
    FailedPrecondition(String),
    PermissionDenied(String),
    Unauthenticated(String),
    Internal(String),
}

impl IdentityError {
    /// The error code this error is reported with.
    pub open spec fn kind(self) -> ErrorCode {
        match self {
            IdentityError::InvalidArgument(_) => ErrorCode::InvalidArgument,
            IdentityError::NotFound(_) => ErrorCode::NotFound,
            IdentityError::AlreadyExists(_) => ErrorCode::AlreadyExists,
            IdentityError::FailedPrecondition(_) => ErrorCode::FailedPrecondition,
            IdentityError::PermissionDenied(_) => ErrorCode::PermissionDenied,
            IdentityError::Unauthenticated(_) => ErrorCode::Unauthenticated,
            IdentityError::Internal(_) => ErrorCode::Internal,
        }
    }

    /// The message this error carries.
    pub open spec fn payload(self) -> String {
        match self {
            IdentityError::InvalidArgument(m) => m,
            IdentityError::NotFound(m) => m,
            IdentityError::AlreadyExists(m) => m,
            IdentityError::FailedPrecondition(m) => m,
            IdentityError::PermissionDenied(m) => m,
            IdentityError::Unauthenticated(m) => m,
            IdentityError::Internal(m) => m,
        }
    }

    /// The error of kind `code` carrying `m`; a code this service does not
    /// carry is internal.
    pub open spec fn build(code: ErrorCode, m: String) -> IdentityError {
        match code {
            ErrorCode::InvalidArgument => IdentityError::InvalidArgument(m),
            ErrorCode::NotFound => IdentityError::NotFound(m),
            ErrorCode::AlreadyExists => IdentityError::AlreadyExists(m),
            ErrorCode::FailedPrecondition => IdentityError::FailedPrecondition(m),
            ErrorCode::PermissionDenied => IdentityError::PermissionDenied(m),
            ErrorCode::Unauthenticated => IdentityError::Unauthenticated(m),
            ErrorCode::Internal => IdentityError::Internal(m),
            _ => IdentityError::Internal(m),
        }
    }

    pub fn invalid_argument(message: &str) -> (r: IdentityError)
        ensures
            r == IdentityError::InvalidArgument(r.payload()),
            r.payload()@ == message@,
    {
        IdentityError::InvalidArgument(message.to_owned())
    }

    pub fn not_found(message: &str) -> (r: IdentityError)
        ensures
            r == IdentityError::NotFound(r.payload()),
            r.payload()@ == message@,
    {
        IdentityError::NotFound(message.to_owned())
    }

    pub fn already_exists(message: &str) -> (r: IdentityError)
        ensures
            r == IdentityError::AlreadyExists(r.payload()),
            r.payload()@ == message@,
    {
        IdentityError::AlreadyExists(message.to_owned())
    }

    pub fn failed_precondition(message: &str) -> (r: IdentityError)
        ensures
            r == IdentityError::FailedPrecondition(r.payload()),
            r.payload()@ == message@,
    {
        IdentityError::FailedPrecondition(message.to_owned())
    }

    pub fn permission_denied(message: &str) -> (r: IdentityError)
        ensures
            r == IdentityError::PermissionDenied(r.payload()),
            r.payload()@ == message@,
    {
        IdentityError::PermissionDenied(message.to_owned())
    }

    pub fn unauthenticated(message: &str) -> (r: IdentityError)
        ensures
            r == IdentityError::Unauthenticated(r.payload()),
            r.payload()@ == message@,
    {
        IdentityError::Unauthenticated(message.to_owned())
    }

    pub fn internal(message: &str) -> (r: IdentityError)
        ensures
            r == IdentityError::Internal(r.payload()),
            r.payload()@ == message@,
    {
        IdentityError::Internal(message.to_owned())
    }

    /// The error for a failed database call whose error displays as `detail`.
    pub fn from_db_error(detail: &str) -> (r: IdentityError)
        ensures
            r == IdentityError::Internal(r.payload()),
            r.payload()@ == "db error: "@ + detail@,
    {
        IdentityError::Internal(concat("db error: ", detail))
    }

    /// The status and body this error is answered with.
    pub fn into_connect(self) -> (r: RpcError)
        ensures
            r.status == status_for_kind(self.kind()),
            r.error.code == self.kind(),
            r.error.message == self.payload(),
    {
        match self {
            IdentityError::InvalidArgument(message) => RpcError {
                status: status_for(ErrorCode::InvalidArgument),
                error: ConnectError { code: ErrorCode::InvalidArgument, message },
            },
            IdentityError::NotFound(message) => RpcError {
                status: status_for(ErrorCode::NotFound),
                error: ConnectError { code: ErrorCode::NotFound, message },
            },
            IdentityError::AlreadyExists(message) => RpcError {
                status: status_for(ErrorCode::AlreadyExists),
                error: ConnectError { code: ErrorCode::AlreadyExists, message },
            },
            IdentityError::FailedPrecondition(message) => RpcError {
                status: status_for(ErrorCode::FailedPrecondition),
                error: ConnectError { code: ErrorCode::FailedPrecondition, message },
            },
            IdentityError::PermissionDenied(message) => RpcError {
                status: status_for(ErrorCode::PermissionDenied),
                error: ConnectError { code: ErrorCode::PermissionDenied, message },
            },
            IdentityError::Unauthenticated(message) => RpcError {
                status: status_for(ErrorCode::Unauthenticated),
                error: ConnectError { code: ErrorCode::Unauthenticated, message },
            },
            IdentityError::Internal(message) => RpcError {
                status: status_for(ErrorCode::Internal),
                error: ConnectError { code: ErrorCode::Internal, message },
            },
        }
    }

    /// The error a response from another service maps to: by its code, and
    /// by its status where the code is one this service does not carry.
    pub fn from_connect(value: RpcError) -> (r: IdentityError)
        ensures
            r == IdentityError::build(
                if value.error.code == ErrorCode::UnsupportedMediaType {
                    fallback_kind(value.status)
                } else {
                    value.error.code
                },
                value.error.message,
            ),
    {
        let RpcError { status, error } = value;
        let code = match error.code {
            ErrorCode::UnsupportedMediaType => fallback_code(status),
            other => other,
        };
        match code {
            ErrorCode::InvalidArgument => IdentityError::InvalidArgument(error.message),
            ErrorCode::NotFound => IdentityError::NotFound(error.message),
            ErrorCode::AlreadyExists => IdentityError::AlreadyExists(error.message),
            ErrorCode::FailedPrecondition => IdentityError::FailedPrecondition(error.message),
            ErrorCode::PermissionDenied => IdentityError::PermissionDenied(error.message),
            ErrorCode::Unauthenticated => IdentityError::Unauthenticated(error.message),
            ErrorCode::Internal => IdentityError::Internal(error.message),
            _ => IdentityError::Internal(error.message),
        }
    }
}

/// An error sent out with `into_connect` and read back with `from_connect`
/// is the same error: `sent` is any response that `into_connect(e)` may
/// return, and the conclusion is what `from_connect(sent)` returns.
pub proof fn lemma_identityerror_connect_roundtrip(e: IdentityError, sent: RpcError)
    requires
        sent.status == status_for_kind(e.kind()),
        sent.error.code == e.kind(),
        sent.error.message == e.payload(),
    ensures
        IdentityError::build(
            if sent.error.code == ErrorCode::UnsupportedMediaType {
                fallback_kind(sent.status)
            } else {
                sent.error.code
            },
            sent.error.message,
        ) == e,
{
}

/// Errors of the customer service; each carries the message sent to the client.
#[derive(Debug, Clone, PartialEq, Eq)]
pub enum CustomerError {
    InvalidArgument(String),
    NotFound(String),
    AlreadyExists(String),
    PermissionDenied(String),
    Unauthenticated(String),
    Internal(String),
}

impl CustomerError {
    /// The error code this error is reported with.
    pub open spec fn kind(self) -> ErrorCode {
        match self {
            CustomerError::InvalidArgument(_) => ErrorCode::InvalidArgument,
            CustomerError::NotFound(_) => ErrorCode::NotFound,
            CustomerError::AlreadyExists(_) => ErrorCode::AlreadyExists,
            CustomerError::PermissionDenied(_) => ErrorCode::PermissionDenied,
            CustomerError::Unauthenticated(_) => ErrorCode::Unauthenticated,
            CustomerError::Internal(_) => ErrorCode::Internal,
        }
    }

    /// The message this error carries.
    pub open spec fn payload(self) -> String {
        match self {
            CustomerError::InvalidArgument(m) => m,
            CustomerError::NotFound(m) => m,
            CustomerError::AlreadyExists(m) => m,
            CustomerError::PermissionDenied(m) => m,
            CustomerError::Unauthenticated(m) => m,
            CustomerError::Internal(m) => m,
        }
    }

    /// The error of kind `code` carrying `m`; a code this service does not
    /// carry is internal.
    pub open spec fn build(code: ErrorCode, m: String) -> CustomerError {
        match code {
            ErrorCode::InvalidArgument => CustomerError::InvalidArgument(m),
            ErrorCode::NotFound => CustomerError::NotFound(m),
            ErrorCode::AlreadyExists => CustomerError::AlreadyExists(m),
            ErrorCode::PermissionDenied => CustomerError::PermissionDenied(m),
            ErrorCode::Unauthenticated => CustomerError::Unauthenticated(m),
            ErrorCode::Internal => CustomerError::Internal(m),
            _ => CustomerError::Internal(m),
        }
    }

    pub fn invalid_argument(message: &str) -> (r: CustomerError)
        ensures
            r == CustomerError::InvalidArgument(r.payload()),
            r.payload()@ == message@,
    {
        CustomerError::InvalidArgument(message.to_owned())
    }

    pub fn not_found(message: &str) -> (r: CustomerError)
        ensures
            r == CustomerError::NotFound(r.payload()),
            r.payload()@ == message@,
    {
        CustomerError::NotFound(message.to_owned())
    }

    pub fn already_exists(message: &str) -> (r: CustomerError)
        ensures
            r == CustomerError::AlreadyExists(r.payload()),
            r.payload()@ == message@,
    {
        CustomerError::AlreadyExists(message.to_owned())
    }

    pub fn permission_denied(message: &str) -> (r: CustomerError)
        ensures
            r == CustomerError::PermissionDenied(r.payload()),
            r.payload()@ == message@,
    {
        CustomerError::PermissionDenied(message.to_owned())
    }

    pub fn unauthenticated(message: &str) -> (r: CustomerError)
        ensures
            r == CustomerError::Unauthenticated(r.payload()),
            r.payload()@ == message@,
    {
        CustomerError::Unauthenticated(message.to_owned())
    }

    pub fn internal(message: &str) -> (r: CustomerError)
        ensures
            r == CustomerError::Internal(r.payload()),
            r.payload()@ == message@,
    {
        CustomerError::Internal(message.to_owned())
    }

    /// The error for a failed database call whose error displays as `detail`.
    pub fn from_db_error(detail: &str) -> (r: CustomerError)
        ensures
            r == CustomerError::Internal(r.payload()),
            r.payload()@ == "db error: "@ + detail@,
    {
        CustomerError::Internal(concat("db error: ", detail))
    }

    /// The status and body this error is answered with.
    pub fn into_connect(self) -> (r: RpcError)
        ensures
            r.status == status_for_kind(self.kind()),
            r.error.code == self.kind(),
            r.error.message == self.payload(),
    {
        match self {
            CustomerError::InvalidArgument(message) => RpcError {
                status: status_for(ErrorCode::InvalidArgument),
                error: ConnectError { code: ErrorCode::InvalidArgument, message },
            },
            CustomerError::NotFound(message) => RpcError {
                status: status_for(ErrorCode::NotFound),
                error: ConnectError { code: ErrorCode::NotFound, message },
            },
            CustomerError::AlreadyExists(message) => RpcError {
                status: status_for(ErrorCode::AlreadyExists),
                error: ConnectError { code: ErrorCode::AlreadyExists, message },
            },
            CustomerError::PermissionDenied(message) => RpcError {
                status: status_for(ErrorCode::PermissionDenied),
                error: ConnectError { code: ErrorCode::PermissionDenied, message },
            },
            CustomerError::Unauthenticated(message) => RpcError {
                status: status_for(ErrorCode::Unauthenticated),
                error: ConnectError { code: ErrorCode::Unauthenticated, message },
            },
            CustomerError::Internal(message) => RpcError {
                status: status_for(ErrorCode::Internal),
                error: ConnectError { code: ErrorCode::Internal, message },
            },
        }
    }

    /// The error a response from another service maps to, by its status.
    pub fn from_connect(value: RpcError) -> (r: CustomerError)
        ensures
            r == CustomerError::build(fallback_kind(value.status), value.error.message),
    {
        let RpcError { status, error } = value;
        let code = fallback_code(status);
        match code {
            ErrorCode::InvalidArgument => CustomerError::InvalidArgument(error.message),
            ErrorCode::NotFound => CustomerError::NotFound(error.message),
            ErrorCode::AlreadyExists => CustomerError::AlreadyExists(error.message),
            ErrorCode::PermissionDenied => CustomerError::PermissionDenied(error.message),
            ErrorCode::Unauthenticated => CustomerError::Unauthenticated(error.message),
            ErrorCode::Internal => CustomerError::Internal(error.message),
            _ => CustomerError::Internal(error.message),
        }
    }
}

/// A customer error sent out with `into_connect` and read back with
/// `from_connect` is the same error, though the way back reads the status only.
pub proof fn lemma_customererror_connect_roundtrip(e: CustomerError, sent: RpcError)
    requires
        sent.status == status_for_kind(e.kind()),
        sent.error.code == e.kind(),
        sent.error.message == e.payload(),
    ensures
        CustomerError::build(fallback_kind(sent.status), sent.error.message) == e,
{
}

} // verus!
