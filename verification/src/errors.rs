//! The error taxonomy and its mapping to HTTP status codes and numeric codes.

use vstd::prelude::*;

verus! {

/// Every reason for which a request is refused.
#[derive(Clone, Copy, Debug, PartialEq, Eq, Structural)]
pub enum ApiError {
    /// The `Content-Type` header is absent or is not the JSON media type.
    ContentTypeError,
    /// The request body is longer than the service accepts.
    PayloadTooLarge,
    /// The body is not JSON of the expected shape.
    MalformedBody,
    /// A required field is absent, an amount is not a number, or a name is empty.
    MissingField,
    /// An entity of that name exists already.
    DuplicateNameError,
    /// The nutrition service knows no food of that name.
    ExternalLookupNotFound,
    /// The nutrition service could not be reached or answered with a failure.
    ExternalLookupUnavailable,
    /// No entity has the requested id or name.
    EntityNotFound,
    /// The store rejected the insertion, as for a reference to a dish that does not exist.
    ForeignKeyViolation,
    /// The diet named in a meal filter does not exist.
    DietNotFound,
    /// The store failed while listing, updating or deleting.
    StorageFailure,
    /// The method is never allowed on that path.
    MethodNotAllowed,
    /// The diet service could not be reached or gave no usable answer.
    RemoteServiceUnavailable,
}

/// The HTTP status of each error.
pub open spec fn status_of(e: ApiError) -> u16 {
    match e {
        ApiError::ContentTypeError => 415,
        ApiError::PayloadTooLarge => 413,
        ApiError::MalformedBody => 422,
        ApiError::MissingField => 422,
        ApiError::DuplicateNameError => 422,
        ApiError::ExternalLookupNotFound => 422,
        ApiError::ExternalLookupUnavailable => 504,
        ApiError::EntityNotFound => 404,
        ApiError::ForeignKeyViolation => 422,
        ApiError::DietNotFound => 404,
        ApiError::StorageFailure => 500,
        ApiError::MethodNotAllowed => 405,
        ApiError::RemoteServiceUnavailable => 500,
    }
}

/// The numeric code sent with each error, where it has one.
pub open spec fn code_of(e: ApiError) -> Option<i32> {
    match e {
        ApiError::ContentTypeError => Some(0i32),
        ApiError::PayloadTooLarge => Some(-6i32),
        ApiError::MalformedBody => Some(-1i32),
        ApiError::MissingField => Some(-1i32),
        ApiError::DuplicateNameError => Some(-2i32),
        ApiError::ExternalLookupNotFound => Some(-3i32),
        ApiError::ExternalLookupUnavailable => Some(-4i32),
        ApiError::EntityNotFound => Some(-5i32),
        ApiError::ForeignKeyViolation => Some(-6i32),
        ApiError::DietNotFound => Some(-7i32),
        ApiError::StorageFailure => Some(-8i32),
        ApiError::MethodNotAllowed => None,
        ApiError::RemoteServiceUnavailable => None,
    }
}

/// The two errors that share the row for a missing or invalid field.
pub open spec fn is_validation(e: ApiError) -> bool {
    e == ApiError::MalformedBody || e == ApiError::MissingField
}

/// The text sent with each error.
pub open spec fn message_of(e: ApiError) -> Seq<char> {
    match e {
        ApiError::ContentTypeError => "Content-Type must be application/json"@,
        ApiError::PayloadTooLarge => "Payload too large"@,
        ApiError::MalformedBody => "The body is not valid JSON for this request"@,
        ApiError::MissingField => "One or more required fields are missing or invalid"@,
        ApiError::DuplicateNameError => "An entity with the same name already exists"@,
        ApiError::ExternalLookupNotFound => "The name is not recognized by the nutrition service"@,
        ApiError::ExternalLookupUnavailable => "The nutrition service is not responding"@,
        ApiError::EntityNotFound => "Not found"@,
        ApiError::ForeignKeyViolation => "One or more dishes do not exist"@,
        ApiError::DietNotFound => "Diet not found"@,
        ApiError::StorageFailure => "Internal Server Error"@,
        ApiError::MethodNotAllowed => "Method not allowed"@,
        ApiError::RemoteServiceUnavailable => "The diet service is not responding"@,
    }
}

impl ApiError {
    /// The HTTP status with which the error is answered.
    pub fn status(&self) -> (s: u16)
        ensures
            s == status_of(*self),
    {
        match self {
            ApiError::ContentTypeError => 415,
            ApiError::PayloadTooLarge => 413,
            ApiError::MalformedBody
            | ApiError::MissingField
            | ApiError::DuplicateNameError
            | ApiError::ExternalLookupNotFound
            | ApiError::ForeignKeyViolation => 422,
            ApiError::ExternalLookupUnavailable => 504,
            ApiError::EntityNotFound | ApiError::DietNotFound => 404,
            ApiError::StorageFailure | ApiError::RemoteServiceUnavailable => 500,
            ApiError::MethodNotAllowed => 405,
        }
    }

    /// The numeric code of the error, `None` where only the status and the text are sent.
    pub fn code(&self) -> (c: Option<i32>)
        ensures
            c == code_of(*self),
    {
        match self {
            ApiError::ContentTypeError => Some(0),
            ApiError::MalformedBody | ApiError::MissingField => Some(-1),
            ApiError::DuplicateNameError => Some(-2),
            ApiError::ExternalLookupNotFound => Some(-3),
            ApiError::ExternalLookupUnavailable => Some(-4),
            ApiError::EntityNotFound => Some(-5),
            ApiError::PayloadTooLarge | ApiError::ForeignKeyViolation => Some(-6),
            ApiError::DietNotFound => Some(-7),
            ApiError::StorageFailure => Some(-8),
            ApiError::MethodNotAllowed | ApiError::RemoteServiceUnavailable => None,
        }
    }

    /// The text of the error.
    pub fn message(&self) -> (m: &'static str)
        ensures
            m@ == message_of(*self),
    {
        match self {
            ApiError::ContentTypeError => "Content-Type must be application/json",
            ApiError::PayloadTooLarge => "Payload too large",
            ApiError::MalformedBody => "The body is not valid JSON for this request",
            ApiError::MissingField => "One or more required fields are missing or invalid",
            ApiError::DuplicateNameError => "An entity with the same name already exists",
            ApiError::ExternalLookupNotFound => "The name is not recognized by the nutrition service",
            ApiError::ExternalLookupUnavailable => "The nutrition service is not responding",
            ApiError::EntityNotFound => "Not found",
            ApiError::ForeignKeyViolation => "One or more dishes do not exist",
            ApiError::DietNotFound => "Diet not found",
            ApiError::StorageFailure => "Internal Server Error",
            ApiError::MethodNotAllowed => "Method not allowed",
            ApiError::RemoteServiceUnavailable => "The diet service is not responding",
        }
    }
}

/// Status and code together tell every two errors apart, except the two
/// validation errors, which are answered alike.
pub proof fn status_and_code_identify_error(a: ApiError, b: ApiError)
    requires
        status_of(a) == status_of(b),
        code_of(a) == code_of(b),
    ensures
        a == b || (is_validation(a) && is_validation(b)),
{
}

/// Every error is answered with a client or server error status, never with success.
pub proof fn errors_are_never_success(e: ApiError)
    ensures
        400 <= status_of(e) < 600,
{
}

} // verus!
