use vstd::prelude::*;

use crate::text::concat3;

verus! {

/// W3C WebDriver error response. The HTTP status is kept as its numeric code.
#[derive(Debug)]
pub struct WebDriverErrorResponse {
    pub status: u16,
    pub error: String,
    pub message: String,
    pub stacktrace: Option<String>,
}

/// `e` is the error response with the given status, error code and message, and no stack trace.
pub open spec fn is_error_response(
    e: WebDriverErrorResponse,
    status: u16,
    error: Seq<char>,
    message: Seq<char>,
) -> bool {
    &&& e.status == status
    &&& e.error@ == error
    &&& e.message@ == message
    &&& e.stacktrace is None
}

pub open spec fn is_invalid_session_id(e: WebDriverErrorResponse, session_id: Seq<char>) -> bool {
    is_error_response(e, 404, "invalid session id"@, "Session "@ + session_id + " not found"@)
}

pub open spec fn is_no_such_element(e: WebDriverErrorResponse) -> bool {
    is_error_response(e, 404, "no such element"@, "Unable to locate element"@)
}

pub open spec fn is_stale_element_reference(e: WebDriverErrorResponse) -> bool {
    is_error_response(
        e,
        404,
        "stale element reference"@,
        "Element is no longer attached to the DOM"@,
    )
}

pub open spec fn is_no_such_window(e: WebDriverErrorResponse) -> bool {
    is_error_response(e, 404, "no such window"@, "No window could be found"@)
}

pub open spec fn is_javascript_error(e: WebDriverErrorResponse, message: Seq<char>) -> bool {
    is_error_response(e, 500, "javascript error"@, message)
}

pub open spec fn is_unknown_error(e: WebDriverErrorResponse, message: Seq<char>) -> bool {
    is_error_response(e, 500, "unknown error"@, message)
}

pub open spec fn is_invalid_argument(e: WebDriverErrorResponse, message: Seq<char>) -> bool {
    is_error_response(e, 400, "invalid argument"@, message)
}

pub open spec fn is_script_timeout(e: WebDriverErrorResponse) -> bool {
    is_error_response(e, 500, "script timeout"@, "Script execution timed out"@)
}

pub open spec fn is_unsupported_operation(e: WebDriverErrorResponse, message: Seq<char>) -> bool {
    is_error_response(e, 500, "unsupported operation"@, message)
}

pub open spec fn is_no_such_alert(e: WebDriverErrorResponse) -> bool {
    is_error_response(e, 404, "no such alert"@, "No alert is currently open"@)
}

pub open spec fn is_element_not_interactable(e: WebDriverErrorResponse, message: Seq<char>) -> bool {
    is_error_response(e, 400, "element not interactable"@, message)
}

impl WebDriverErrorResponse {
    pub fn new(status: u16, error: &str, message: &str) -> (e: Self)
        ensures
            is_error_response(e, status, error@, message@),
    {
        Self { status, error: error.to_string(), message: message.to_string(), stacktrace: None }
    }

    pub fn invalid_session_id(session_id: &str) -> (e: Self)
        ensures
            is_invalid_session_id(e, session_id@),
    {
        let message = concat3("Session ", session_id, " not found");
        Self::new(404, "invalid session id", message.as_str())
    }

    pub fn no_such_element() -> (e: Self)
        ensures
            is_no_such_element(e),
    {
        Self::new(404, "no such element", "Unable to locate element")
    }

    pub fn stale_element_reference() -> (e: Self)
        ensures
            is_stale_element_reference(e),
    {
        Self::new(404, "stale element reference", "Element is no longer attached to the DOM")
    }

    pub fn no_such_window() -> (e: Self)
        ensures
            is_no_such_window(e),
    {
        Self::new(404, "no such window", "No window could be found")
    }

    pub fn javascript_error(message: &str) -> (e: Self)
        ensures
            is_javascript_error(e, message@),
    {
        Self::new(500, "javascript error", message)
    }

    pub fn unknown_error(message: &str) -> (e: Self)
        ensures
            is_unknown_error(e, message@),
    {
        Self::new(500, "unknown error", message)
    }

    pub fn invalid_argument(message: &str) -> (e: Self)
        ensures
            is_invalid_argument(e, message@),
    {
        Self::new(400, "invalid argument", message)
    }

    pub fn script_timeout() -> (e: Self)
        ensures
            is_script_timeout(e),
    {
        Self::new(500, "script timeout", "Script execution timed out")
    }

    pub fn unsupported_operation(message: &str) -> (e: Self)
        ensures
            is_unsupported_operation(e, message@),
    {
        Self::new(500, "unsupported operation", message)
    }

    pub fn no_such_alert() -> (e: Self)
        ensures
            is_no_such_alert(e),
    {
        Self::new(404, "no such alert", "No alert is currently open")
    }

    pub fn element_not_interactable(message: &str) -> (e: Self)
        ensures
            is_element_not_interactable(e, message@),
    {
        Self::new(400, "element not interactable", message)
    }
}

} // verus!
