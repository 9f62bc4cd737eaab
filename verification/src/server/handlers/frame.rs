use vstd::prelude::*;

use crate::platform::executor::FrameId;
use crate::server::response::{is_invalid_argument, is_no_such_element, WebDriverErrorResponse};
use crate::webdriver::session::Session;

verus! {

/// What the logic reads of the `id` member of a switch-to-frame request.
#[derive(Debug)]
pub enum FrameRequestId {
    /// JSON `null`
    Null,
    /// a JSON number, with its value when it is a non-negative integer within `u64`
    Number(Option<u64>),
    /// a JSON object: whether it holds the W3C element key, and the key's value when that
    /// is a string
    Object { has_element_key: bool, element_id: Option<String> },
    /// any other JSON value
    Other,
}

/// The frame a request selects in a session, or the error it is answered with.
pub open spec fn frame_selection(id: FrameRequestId, session: Session) -> Result<FrameId, (u16, Seq<char>)> {
    match id {
        FrameRequestId::Null => Ok(FrameId::Top),
        FrameRequestId::Number(n) => match n {
            Some(v) => if v <= u32::MAX {
                Ok(FrameId::Index(v as u32))
            } else {
                Err((400u16, "Frame index too large"@))
            },
            None => Err((400u16, "Frame index must be a non-negative integer"@)),
        },
        FrameRequestId::Object { has_element_key, element_id } => if !has_element_key {
            Err((400u16, "Invalid frame identifier object"@))
        } else {
            match element_id {
                Some(eid) => if session.elements.refs().contains_key(eid@) {
                    Ok(FrameId::Element(session.elements.refs()[eid@].js_ref))
                } else {
                    Err((404u16, "Unable to locate element"@))
                },
                None => Err((400u16, "Element reference must be a string"@)),
            }
        },
        FrameRequestId::Other => Err((400u16, "Frame ID must be null, a number, or an element reference"@)),
    }
}

/// Parses the frame of a switch-to-frame request: `null` for the top-level context, a
/// frame index, or a stored element reference.
pub fn parse_frame_id(id: &FrameRequestId, session: &Session) -> (r: Result<FrameId, WebDriverErrorResponse>)
    ensures
        match frame_selection(*id, *session) {
            Ok(f) => match r {
                Ok(g) => match (f, g) {
                    (FrameId::Element(a), FrameId::Element(b)) => a@ == b@,
                    _ => f == g,
                },
                Err(_) => false,
            },
            Err((status, message)) => r matches Err(e) && if status == 404 {
                is_no_such_element(e)
            } else {
                is_invalid_argument(e, message)
            },
        },
{
    match id {
        FrameRequestId::Null => Ok(FrameId::Top),
        FrameRequestId::Number(n) => match n {
            Some(v) => {
                if *v <= u32::MAX as u64 {
                    Ok(FrameId::Index(*v as u32))
                } else {
                    Err(WebDriverErrorResponse::invalid_argument("Frame index too large"))
                }
            },
            None => Err(
                WebDriverErrorResponse::invalid_argument("Frame index must be a non-negative integer"),
            ),
        },
        FrameRequestId::Object { has_element_key, element_id } => {
            if !*has_element_key {
                return Err(WebDriverErrorResponse::invalid_argument("Invalid frame identifier object"));
            }
            match element_id {
                Some(eid) => match session.elements.get(eid.as_str()) {
                    Some(element) => Ok(FrameId::Element(element.js_ref.clone())),
                    None => Err(WebDriverErrorResponse::no_such_element()),
                },
                None => Err(
                    WebDriverErrorResponse::invalid_argument("Element reference must be a string"),
                ),
            }
        },
        FrameRequestId::Other => Err(
            WebDriverErrorResponse::invalid_argument(
                "Frame ID must be null, a number, or an element reference",
            ),
        ),
    }
}

} // verus!
