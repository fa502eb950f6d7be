use auth::error::{DatabaseError, DriverError, ErrorResponse, ServerError};

#[test]
fn driver_failures_are_classified() {
    assert_eq!(
        DatabaseError::from(DriverError::ColumnNotFound("email".to_string())),
        DatabaseError::ColumnNotFound("email".to_string())
    );
    assert_eq!(DatabaseError::from(DriverError::Io), DatabaseError::CommunicationError);
    assert_eq!(DatabaseError::from(DriverError::Tls), DatabaseError::CommunicationError);
    assert_eq!(
        DatabaseError::from(DriverError::PoolTimedOut),
        DatabaseError::ConnectionNotAvailable
    );
    assert_eq!(
        DatabaseError::from(DriverError::Database("UNIQUE constraint failed".to_string())),
        DatabaseError::QueryFailed("UNIQUE constraint failed".to_string())
    );
    assert_eq!(DatabaseError::from(DriverError::Protocol), DatabaseError::ProtocolNotSupported);
    assert_eq!(
        DatabaseError::from(DriverError::TypeNotFound("citext".to_string())),
        DatabaseError::DatabaseInconsistency("TypeNotFound citext".to_string())
    );
    assert_eq!(DatabaseError::from(DriverError::RowNotFound), DatabaseError::NotFound);
    assert_eq!(DatabaseError::from(DriverError::Other), DatabaseError::ConnectionFailed);
}

#[test]
fn storage_failures_have_a_message() {
    assert_eq!(DatabaseError::NotFound.message(), "Not Found");
    assert_eq!(DatabaseError::CommunicationError.message(), "Communication Error");
    assert_eq!(DatabaseError::ConnectionFailed.message(), "Connection Failed");
    assert_eq!(DatabaseError::ConnectionNotAvailable.message(), "Connection Not Available");
    assert_eq!(DatabaseError::QueryFailed("x".to_string()).message(), "Query Failed: x");
    assert_eq!(DatabaseError::ColumnNotFound("id".to_string()).message(), "Column Not Found: id");
    assert_eq!(DatabaseError::ProtocolNotSupported.message(), "Protocol Not Supported");
    assert_eq!(DatabaseError::NotImplemented.message(), "Not Implemented");
    assert_eq!(DatabaseError::Unknown("y".to_string()).message(), "Unknown Error: y");
    assert_eq!(
        DatabaseError::DatabaseInconsistency("z".to_string()).message(),
        "Database Inconsistency: z"
    );
    assert_eq!(DatabaseError::MigrationFailed("m".to_string()).message(), "Migration Failed: m");
    assert_eq!(DatabaseError::QueryFailed(String::new()).message(), "Query Failed: ");
}

#[test]
fn every_storage_failure_is_the_same_internal_failure() {
    let kinds = vec![
        DatabaseError::NotFound,
        DatabaseError::CommunicationError,
        DatabaseError::ConnectionFailed,
        DatabaseError::ConnectionNotAvailable,
        DatabaseError::QueryFailed("secret detail".to_string()),
        DatabaseError::ColumnNotFound("secret".to_string()),
        DatabaseError::ProtocolNotSupported,
        DatabaseError::NotImplemented,
        DatabaseError::Unknown("secret".to_string()),
        DatabaseError::DatabaseInconsistency("secret".to_string()),
        DatabaseError::MigrationFailed("secret".to_string()),
    ];
    for kind in kinds {
        assert_eq!(
            ServerError::from(kind),
            ServerError::InternalServerError("Internal Server Error".to_string())
        );
    }
}

#[test]
fn failures_map_to_status_and_message() {
    assert_eq!(
        ServerError::Unauthorized.into_response(),
        ErrorResponse { status: 401, message: "Unauthorized".to_string() }
    );
    assert_eq!(
        ServerError::BadRequest("Invalid Email Format".to_string()).into_response(),
        ErrorResponse { status: 400, message: "Invalid Email Format".to_string() }
    );
    assert_eq!(
        ServerError::JsonRejection("missing field `email`".to_string()).into_response(),
        ErrorResponse { status: 400, message: "missing field `email`".to_string() }
    );
    assert_eq!(
        ServerError::InternalServerError("connection refused at 10.0.0.1".to_string())
            .into_response(),
        ErrorResponse { status: 500, message: "Internal Server Error".to_string() }
    );
}
