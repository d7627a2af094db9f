use vstd::prelude::*;

use crate::models::ErrorResponse;

verus! {

/// Every way a request can fail.
#[derive(Debug, Clone)]
pub enum ApiError {
    Validation(String),
    NotFound(String),
    Conflict(String),
    CameraUnavailable,
    Usb(String),
    CaptureFailed(String),
    Internal,
}

/// The stable error code that clients match on.
pub open spec fn error_code(e: ApiError) -> Seq<char> {
    match e {
        ApiError::Validation(_) => "VALIDATION_ERROR"@,
        ApiError::NotFound(_) => "NOT_FOUND"@,
        ApiError::Conflict(_) => "CONFLICT"@,
        ApiError::CameraUnavailable => "CAMERA_UNAVAILABLE"@,
        ApiError::Usb(_) => "USB_CONNECTION_LOST"@,
        ApiError::CaptureFailed(_) => "CAPTURE_FAILED"@,
        ApiError::Internal => "INTERNAL_ERROR"@,
    }
}

/// The HTTP status that an error is answered with.
pub open spec fn error_status(e: ApiError) -> u16 {
    match e {
        ApiError::Validation(_) => 400,
        ApiError::NotFound(_) => 404,
        ApiError::Conflict(_) => 409,
        ApiError::CameraUnavailable => 503,
        ApiError::Usb(_) => 503,
        ApiError::CaptureFailed(_) => 502,
        ApiError::Internal => 500,
    }
}

/// The human-readable text of an error.
pub open spec fn error_message(e: ApiError) -> Seq<char> {
    match e {
        ApiError::Validation(m) => "invalid request: "@ + m@,
        ApiError::NotFound(m) => "not found: "@ + m@,
        ApiError::Conflict(m) => "conflict: "@ + m@,
        ApiError::CameraUnavailable => "camera not found or unavailable"@,
        ApiError::Usb(m) => "usb communication failure: "@ + m@,
        ApiError::CaptureFailed(m) => "capture failed: "@ + m@,
        ApiError::Internal => "internal server error"@,
    }
}

/// `r` failed validation with the message `msg`.
pub open spec fn is_validation_err<T>(r: Result<T, ApiError>, msg: Seq<char>) -> bool {
    r matches Err(ApiError::Validation(m)) && m@ == msg
}

/// `r` failed for a missing thing, with the message `msg`.
pub open spec fn is_not_found_err<T>(r: Result<T, ApiError>, msg: Seq<char>) -> bool {
    r matches Err(ApiError::NotFound(m)) && m@ == msg
}

/// `r` failed for a conflict, with the message `msg`.
pub open spec fn is_conflict_err<T>(r: Result<T, ApiError>, msg: Seq<char>) -> bool {
    r matches Err(ApiError::Conflict(m)) && m@ == msg
}

/// `r` failed at the camera, with the message `msg`.
pub open spec fn is_capture_failed_err<T>(r: Result<T, ApiError>, msg: Seq<char>) -> bool {
    r matches Err(ApiError::CaptureFailed(m)) && m@ == msg
}

/// What identifies an error: its code and its message.
pub open spec fn error_view(e: ApiError) -> (Seq<char>, Seq<char>) {
    (error_code(e), error_message(e))
}

/// `prefix` followed by `rest`, as a new string.
pub fn prefixed(prefix: &str, rest: &String) -> (r: String)
    ensures
        r@ == prefix@ + rest@,
{
    let mut s = String::from_str(prefix);
    s.append(rest.as_str());
    s
}

impl ApiError {
    /// The stable error code that clients match on.
    pub fn code(&self) -> (r: &'static str)
        ensures
            r@ == error_code(*self),
    {
        match self {
            ApiError::Validation(_) => "VALIDATION_ERROR",
            ApiError::NotFound(_) => "NOT_FOUND",
            ApiError::Conflict(_) => "CONFLICT",
            ApiError::CameraUnavailable => "CAMERA_UNAVAILABLE",
            ApiError::Usb(_) => "USB_CONNECTION_LOST",
            ApiError::CaptureFailed(_) => "CAPTURE_FAILED",
            ApiError::Internal => "INTERNAL_ERROR",
        }
    }

    /// The HTTP status code that the error is answered with.
    pub fn status(&self) -> (r: u16)
        ensures
            r == error_status(*self),
    {
        match self {
            ApiError::Validation(_) => 400,
            ApiError::NotFound(_) => 404,
            ApiError::Conflict(_) => 409,
            ApiError::CameraUnavailable => 503,
            ApiError::Usb(_) => 503,
            ApiError::CaptureFailed(_) => 502,
            ApiError::Internal => 500,
        }
    }

    /// The human-readable text of the error.
    pub fn message(&self) -> (r: String)
        ensures
            r@ == error_message(*self),
    {
        match self {
            ApiError::Validation(m) => prefixed("invalid request: ", m),
            ApiError::NotFound(m) => prefixed("not found: ", m),
            ApiError::Conflict(m) => prefixed("conflict: ", m),
            ApiError::CameraUnavailable => String::from_str("camera not found or unavailable"),
            ApiError::Usb(m) => prefixed("usb communication failure: ", m),
            ApiError::CaptureFailed(m) => prefixed("capture failed: ", m),
            ApiError::Internal => String::from_str("internal server error"),
        }
    }

    /// The body of the error answer, under the given request id.
    pub fn to_error_response(&self, request_id: String) -> (r: ErrorResponse)
        ensures
            r.code@ == error_code(*self),
            r.message@ == error_message(*self),
            r.request_id == request_id,
    {
        ErrorResponse {
            code: String::from_str(self.code()),
            message: self.message(),
            request_id,
        }
    }

    /// A copy of the error.
    pub fn duplicate(&self) -> (r: ApiError)
        ensures
            r == *self,
    {
        match self {
            ApiError::Validation(m) => ApiError::Validation(m.clone()),
            ApiError::NotFound(m) => ApiError::NotFound(m.clone()),
            ApiError::Conflict(m) => ApiError::Conflict(m.clone()),
            ApiError::CameraUnavailable => ApiError::CameraUnavailable,
            ApiError::Usb(m) => ApiError::Usb(m.clone()),
            ApiError::CaptureFailed(m) => ApiError::CaptureFailed(m.clone()),
            ApiError::Internal => ApiError::Internal,
        }
    }

    /// Whether another attempt at the camera may succeed: the USB link or the
    /// camera itself was lost.
    pub fn is_retryable(&self) -> (r: bool)
        ensures
            r == (*self is Usb || *self is CameraUnavailable),
    {
        match self {
            ApiError::Usb(_) | ApiError::CameraUnavailable => true,
            _ => false,
        }
    }
}

} // verus!
