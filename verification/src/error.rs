//! Errors of the service and of the storage underneath it.

use vstd::prelude::*;

verus! {

/// What the service answers when an operation fails.
#[derive(PartialEq, Eq, Debug)]
pub enum ServiceError {
    InternalServerError,
    BadRequest(String),
}

/// A failed database operation, told apart as far as the service cares.
pub enum DbFailure {
    /// The query found no row.
    NotFound,
    /// The database refused the statement: a unique constraint was violated,
    /// with the database's message and, where it gives them, its details.
    UniqueViolation { message: String, details: Option<String> },
    /// Any other refusal by the database, or a failure before it answered.
    Other,
}

/// The service error that a storage failure becomes: a unique violation is the
/// client's fault and is reported with the database's details (its message
/// where it gives none); anything else is an internal error.
pub open spec fn service_error_of(failure: DbFailure) -> ServiceError {
    match failure {
        DbFailure::UniqueViolation { message, details } => ServiceError::BadRequest(
            match details {
                Some(d) => d,
                None => message,
            },
        ),
        _ => ServiceError::InternalServerError,
    }
}

impl From<DbFailure> for ServiceError {
    fn from(failure: DbFailure) -> (e: ServiceError) {
        match failure {
            DbFailure::UniqueViolation { message, details } => ServiceError::BadRequest(
                match details {
                    Some(d) => d,
                    None => message,
                },
            ),
            _ => ServiceError::InternalServerError,
        }
    }
}

impl vstd::std_specs::convert::FromSpecImpl<DbFailure> for ServiceError {
    open spec fn obeys_from_spec() -> bool {
        true
    }

    open spec fn from_spec(failure: DbFailure) -> ServiceError {
        service_error_of(failure)
    }
}

/// A unique violation is a bad request that carries the database's details
/// where it gives them, and its message otherwise; every other storage
/// failure is an internal error.
pub proof fn storage_failure_answers(message: String, details: Option<String>)
    ensures
        service_error_of(DbFailure::UniqueViolation { message, details }) == ServiceError::BadRequest(
            if details is Some {
                details->0
            } else {
                message
            },
        ),
        service_error_of(DbFailure::NotFound) == ServiceError::InternalServerError,
        service_error_of(DbFailure::Other) == ServiceError::InternalServerError,
{
}

impl From<r2d2::Error> for ServiceError {
    /// A connection pool that hands out no connection is an internal error.
    fn from(err: r2d2::Error) -> (e: ServiceError) {
        ServiceError::InternalServerError
    }
}

impl vstd::std_specs::convert::FromSpecImpl<r2d2::Error> for ServiceError {
    open spec fn obeys_from_spec() -> bool {
        true
    }

    open spec fn from_spec(err: r2d2::Error) -> ServiceError {
        ServiceError::InternalServerError
    }
}

impl From<actix_web::error::BlockingError> for ServiceError {
    /// A blocking task that did not finish is an internal error.
    fn from(err: actix_web::error::BlockingError) -> (e: ServiceError) {
        ServiceError::InternalServerError
    }
}

impl vstd::std_specs::convert::FromSpecImpl<actix_web::error::BlockingError> for ServiceError {
    open spec fn obeys_from_spec() -> bool {
        true
    }

    open spec fn from_spec(err: actix_web::error::BlockingError) -> ServiceError {
        ServiceError::InternalServerError
    }
}

} // verus!
