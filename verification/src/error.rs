//! The failure kinds of the storage layer and of the service, and how one
//! maps to the next.

use vstd::prelude::*;
use vstd::string::StringExecFns;

verus! {

/// What a storage driver reports, reduced to the distinctions the service
/// makes. The adapter fills it from the driver's own error value.
#[derive(Debug, Clone, PartialEq, Eq)]
pub enum DriverError {
    /// A column the statement names is missing from the row.
    ColumnNotFound(String),
    /// The connection failed while reading or writing.
    Io,
    /// The encrypted channel could not be set up.
    Tls,
    /// No pooled connection became free in time.
    PoolTimedOut,
    /// The engine refused the statement; the text is the engine's message.
    Database(String),
    /// The driver met a message it does not understand.
    Protocol,
    /// A type the statement names is unknown to the engine.
    TypeNotFound(String),
    /// A statement that must yield a row yielded none.
    RowNotFound,
    /// Anything else.
    Other,
}

/// Storage failures, independent of the engine in use.
#[derive(Debug, Clone, PartialEq, Eq)]
pub enum DatabaseError {
    NotFound,
    CommunicationError,
    ConnectionFailed,
    ConnectionNotAvailable,
    QueryFailed(String),
    ColumnNotFound(String),
    ProtocolNotSupported,
    NotImplemented,
    Unknown(String),
    DatabaseInconsistency(String),
    MigrationFailed(String),
}

/// `kind` is the storage failure that stands for the driver failure `value`.
pub open spec fn classifies(value: DriverError, kind: DatabaseError) -> bool {
    match value {
        DriverError::ColumnNotFound(name) => kind == DatabaseError::ColumnNotFound(name),
        DriverError::Io | DriverError::Tls => kind == DatabaseError::CommunicationError,
        DriverError::PoolTimedOut => kind == DatabaseError::ConnectionNotAvailable,
        DriverError::Database(detail) => kind == DatabaseError::QueryFailed(detail),
        DriverError::Protocol => kind == DatabaseError::ProtocolNotSupported,
        DriverError::TypeNotFound(name) => kind matches DatabaseError::DatabaseInconsistency(detail)
            && detail@ == "TypeNotFound "@ + name@,
        DriverError::RowNotFound => kind == DatabaseError::NotFound,
        DriverError::Other => kind == DatabaseError::ConnectionFailed,
    }
}

impl DatabaseError {
    /// The text that describes this failure.
    pub open spec fn message_spec(&self) -> Seq<char> {
        match self {
            DatabaseError::NotFound => "Not Found"@,
            DatabaseError::CommunicationError => "Communication Error"@,
            DatabaseError::ConnectionFailed => "Connection Failed"@,
            DatabaseError::ConnectionNotAvailable => "Connection Not Available"@,
            DatabaseError::QueryFailed(msg) => "Query Failed: "@ + msg@,
            DatabaseError::ColumnNotFound(column) => "Column Not Found: "@ + column@,
            DatabaseError::ProtocolNotSupported => "Protocol Not Supported"@,
            DatabaseError::NotImplemented => "Not Implemented"@,
            DatabaseError::Unknown(msg) => "Unknown Error: "@ + msg@,
            DatabaseError::DatabaseInconsistency(msg) => "Database Inconsistency: "@ + msg@,
            DatabaseError::MigrationFailed(msg) => "Migration Failed: "@ + msg@,
        }
    }

    /// `self` is the unclassified failure with the detail `text`.
    pub open spec fn is_unknown(&self, text: Seq<char>) -> bool {
        self matches DatabaseError::Unknown(detail) && detail@ == text
    }

    /// Renders the failure for a log line.
    pub fn message(&self) -> (r: String)
        ensures
            r@ == self.message_spec(),
    {
        match self {
            DatabaseError::NotFound => String::from_str("Not Found"),
            DatabaseError::CommunicationError => String::from_str("Communication Error"),
            DatabaseError::ConnectionFailed => String::from_str("Connection Failed"),
            DatabaseError::ConnectionNotAvailable => String::from_str("Connection Not Available"),
            DatabaseError::QueryFailed(msg) => String::from_str("Query Failed: ").concat(
                msg.as_str(),
            ),
            DatabaseError::ColumnNotFound(column) => String::from_str("Column Not Found: ").concat(
                column.as_str(),
            ),
            DatabaseError::ProtocolNotSupported => String::from_str("Protocol Not Supported"),
            DatabaseError::NotImplemented => String::from_str("Not Implemented"),
            DatabaseError::Unknown(msg) => String::from_str("Unknown Error: ").concat(msg.as_str()),
            DatabaseError::DatabaseInconsistency(msg) => String::from_str(
                "Database Inconsistency: ",
            ).concat(msg.as_str()),
            DatabaseError::MigrationFailed(msg) => String::from_str("Migration Failed: ").concat(
                msg.as_str(),
            ),
        }
    }

    /// Classifies a driver failure. Each driver failure has exactly one kind.
    pub fn from(value: DriverError) -> (r: DatabaseError)
        ensures
            classifies(value, r),
    {
        match value {
            DriverError::ColumnNotFound(name) => DatabaseError::ColumnNotFound(name),
            DriverError::Io => DatabaseError::CommunicationError,
            DriverError::Tls => DatabaseError::CommunicationError,
            DriverError::PoolTimedOut => DatabaseError::ConnectionNotAvailable,
            DriverError::Database(detail) => DatabaseError::QueryFailed(detail),
            DriverError::Protocol => DatabaseError::ProtocolNotSupported,
            DriverError::TypeNotFound(name) => DatabaseError::DatabaseInconsistency(
                String::from_str("TypeNotFound ").concat(name.as_str()),
            ),
            DriverError::RowNotFound => DatabaseError::NotFound,
            DriverError::Other => DatabaseError::ConnectionFailed,
        }
    }
}

/// What the service answers when a request fails.
#[derive(Debug, Clone, PartialEq, Eq)]
pub enum ServerError {
    /// The request body could not be read; the text says why.
    JsonRejection(String),
    /// Something failed inside the service; the text is for the log only.
    InternalServerError(String),
    /// Authentication failed, for whatever reason.
    Unauthorized,
    /// The input is malformed; the text is shown to the caller.
    BadRequest(String),
}

/// Status code and message of a failure answer.
#[derive(Debug, Clone, PartialEq, Eq)]
pub struct ErrorResponse {
    pub status: u16,
    pub message: String,
}

impl ServerError {
    /// The status code of the answer: 400, 401 or 500.
    pub open spec fn status_spec(&self) -> u16 {
        match self {
            ServerError::JsonRejection(_) => 400,
            ServerError::InternalServerError(_) => 500,
            ServerError::Unauthorized => 401,
            ServerError::BadRequest(_) => 400,
        }
    }

    /// The message of the answer. An internal failure never shows its detail.
    pub open spec fn message_spec(&self) -> Seq<char> {
        match self {
            ServerError::JsonRejection(text) => text@,
            ServerError::InternalServerError(_) => "Internal Server Error"@,
            ServerError::Unauthorized => "Unauthorized"@,
            ServerError::BadRequest(msg) => msg@,
        }
    }

    /// `self` is the internal failure with the generic detail.
    pub open spec fn is_generic_internal(&self) -> bool {
        self matches ServerError::InternalServerError(m) && m@ == "Internal Server Error"@
    }

    /// `self` is the malformed-input failure with the message `text`.
    pub open spec fn is_bad_request(&self, text: Seq<char>) -> bool {
        self matches ServerError::BadRequest(m) && m@ == text
    }

    /// Every storage failure surfaces as the same internal failure.
    pub fn from(value: DatabaseError) -> (r: ServerError)
        ensures
            r.is_generic_internal(),
    {
        ServerError::InternalServerError(String::from_str("Internal Server Error"))
    }

    /// Status code and message for the transport.
    pub fn into_response(self) -> (r: ErrorResponse)
        ensures
            r.status == self.status_spec(),
            r.message@ == self.message_spec(),
    {
        match self {
            ServerError::JsonRejection(text) => ErrorResponse { status: 400, message: text },
            ServerError::InternalServerError(_) => ErrorResponse {
                status: 500,
                message: String::from_str("Internal Server Error"),
            },
            ServerError::Unauthorized => ErrorResponse {
                status: 401,
                message: String::from_str("Unauthorized"),
            },
            ServerError::BadRequest(msg) => ErrorResponse { status: 400, message: msg },
        }
    }
}

} // verus!
