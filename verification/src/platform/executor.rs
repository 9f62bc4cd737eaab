use vstd::prelude::*;

use crate::server::response::{
    is_element_not_interactable, is_javascript_error, is_no_such_alert, is_script_timeout,
    is_unknown_error, WebDriverErrorResponse,
};
use crate::text::{bool_text, contains_text, decimal, decimal_u64, text_contains, text_eq};

verus! {

/// Window rectangle (position and size)
#[derive(Debug, Clone, Copy, Default)]
pub struct WindowRect {
    pub x: i32,
    pub y: i32,
    pub width: u32,
    pub height: u32,
}

/// Frame identifier for switching frames
#[derive(Debug, Clone)]
pub enum FrameId {
    /// Top-level browsing context (null)
    Top,
    /// Frame by index
    Index(u32),
    /// Frame by element reference (`js_var`)
    Element(String),
}

/// Pointer event type
#[derive(Debug, Clone, Copy, PartialEq, Eq, Structural)]
pub enum PointerEventType {
    Down,
    Up,
    Move,
}

/// The DOM event that a pointer event is dispatched as.
pub open spec fn pointer_event_name(t: PointerEventType) -> Seq<char> {
    match t {
        PointerEventType::Down => "mousedown"@,
        PointerEventType::Up => "mouseup"@,
        PointerEventType::Move => "mousemove"@,
    }
}

/// The `buttons` mask of a pointer event: the pressed button's bit on a press, none otherwise.
pub open spec fn pointer_buttons(t: PointerEventType, button: u32) -> i32 {
    if t is Down {
        1i32 << button
    } else {
        0i32
    }
}

pub fn pointer_event_name_str(t: PointerEventType) -> (name: &'static str)
    ensures
        name@ == pointer_event_name(t),
{
    match t {
        PointerEventType::Down => "mousedown",
        PointerEventType::Up => "mouseup",
        PointerEventType::Move => "mousemove",
    }
}

pub fn pointer_buttons_value(t: PointerEventType, button: u32) -> (mask: i32)
    requires
        !(t is Down) || button < 32,
    ensures
        mask == pointer_buttons(t, button),
{
    if matches!(t, PointerEventType::Down) {
        1i32 << button
    } else {
        0
    }
}

/// Keyboard modifiers held while a key event is dispatched.
#[derive(Debug, Clone, Copy, Default, PartialEq, Eq, Structural)]
pub struct ModifierState {
    pub ctrl: bool,
    pub meta: bool,
    pub shift: bool,
    pub alt: bool,
}

/// Cookie data
#[derive(Debug, Clone, Default)]
pub struct Cookie {
    pub name: String,
    pub value: String,
    pub path: Option<String>,
    pub domain: Option<String>,
    pub secure: bool,
    pub http_only: bool,
    pub expiry: Option<u64>,
    pub same_site: Option<String>,
}

/// What the logic reads of the `value` member of a script's JSON reply.
#[derive(Debug, Clone)]
pub enum ReplyValue {
    /// JSON `null`
    Null,
    /// a JSON boolean
    Bool(bool),
    /// a JSON string
    Text(String),
    /// a JSON number that is a non-negative integer within `u64`
    Count(u64),
    /// any other JSON value, as its JSON text
    Other(String),
}

/// What the logic reads of a script's JSON reply: `success` when it is a boolean,
/// `error` when it is a string, and `value` when it is present.
#[derive(Debug, Clone)]
pub struct ScriptReply {
    pub success: Option<bool>,
    pub error: Option<String>,
    pub value: Option<ReplyValue>,
}

/// The text of a reply value: a string as it is, anything else as its JSON text.
pub open spec fn reply_value_text(v: ReplyValue) -> Seq<char> {
    match v {
        ReplyValue::Null => "null"@,
        ReplyValue::Bool(b) => bool_text(b),
        ReplyValue::Text(s) => s@,
        ReplyValue::Count(n) => decimal(n as nat),
        ReplyValue::Other(json) => json@,
    }
}

/// The reply reports a failure with an error message.
pub open spec fn reply_failed(r: ScriptReply) -> bool {
    r.success == Some(false) && r.error is Some
}

/// The error message of a failed reply.
pub open spec fn reply_error(r: ScriptReply) -> Seq<char> {
    r.error.unwrap()@
}

/// A result carries `expected` on success, or the JavaScript error of a failed reply.
pub open spec fn reply_outcome<T>(result: Result<T, WebDriverErrorResponse>, r: ScriptReply, expected: T) -> bool {
    if reply_failed(r) {
        result is Err && is_javascript_error(result->Err_0, reply_error(r))
    } else {
        result == Ok::<T, WebDriverErrorResponse>(expected)
    }
}

/// The text that `extract_string_value` gives for a reply that did not fail.
pub open spec fn reply_string(r: ScriptReply) -> Seq<char> {
    if r.success == Some(true) && r.value is Some {
        reply_value_text(r.value.unwrap())
    } else {
        Seq::empty()
    }
}

/// The boolean that `extract_bool_value` gives for a reply that did not fail.
pub open spec fn reply_bool(r: ScriptReply) -> bool {
    r.success == Some(true) && (r.value matches Some(ReplyValue::Bool(b)) && b)
}

/// The count that `extract_usize_value` gives for a reply that did not fail.
pub open spec fn reply_count(r: ScriptReply) -> usize {
    if r.success == Some(true) && r.value is Some && r.value.unwrap() is Count && r.value.unwrap()->Count_0
        <= usize::MAX {
        r.value.unwrap()->Count_0 as usize
    } else {
        0
    }
}

fn text_to_string(s: &str) -> (r: String)
    ensures
        r@ == s@,
{
    s.to_string()
}

fn value_text(v: &ReplyValue) -> (s: String)
    ensures
        s@ == reply_value_text(*v),
{
    match v {
        ReplyValue::Null => text_to_string("null"),
        ReplyValue::Bool(b) => crate::text::bool_string(*b),
        ReplyValue::Text(s) => s.clone(),
        ReplyValue::Count(n) => decimal_u64(*n),
        ReplyValue::Other(json) => json.clone(),
    }
}

fn failure(r: &ScriptReply) -> (e: Option<WebDriverErrorResponse>)
    ensures
        match e {
            Some(err) => reply_failed(*r) && is_javascript_error(err, reply_error(*r)),
            None => !reply_failed(*r),
        },
{
    match r.success {
        Some(false) => match &r.error {
            Some(error) => Some(WebDriverErrorResponse::javascript_error(error.as_str())),
            None => None,
        },
        _ => None,
    }
}

/// Extract string value from JavaScript result
pub fn extract_string_value(r: &ScriptReply) -> (result: Result<String, WebDriverErrorResponse>)
    ensures
        match result {
            Ok(s) => !reply_failed(*r) && s@ == reply_string(*r),
            Err(e) => reply_failed(*r) && is_javascript_error(e, reply_error(*r)),
        },
{
    if let Some(e) = failure(r) {
        return Err(e);
    }
    if let Some(true) = r.success {
        if let Some(value) = &r.value {
            return Ok(value_text(value));
        }
    }
    Ok(String::new())
}

/// Extract boolean value from JavaScript result
pub fn extract_bool_value(r: &ScriptReply) -> (result: Result<bool, WebDriverErrorResponse>)
    ensures
        reply_outcome(result, *r, reply_bool(*r)),
{
    if let Some(e) = failure(r) {
        return Err(e);
    }
    if let Some(true) = r.success {
        if let Some(ReplyValue::Bool(b)) = &r.value {
            return Ok(*b);
        }
    }
    Ok(false)
}

/// Extract usize value from JavaScript result
pub fn extract_usize_value(r: &ScriptReply) -> (result: Result<usize, WebDriverErrorResponse>)
    ensures
        reply_outcome(result, *r, reply_count(*r)),
{
    if let Some(e) = failure(r) {
        return Err(e);
    }
    if let Some(true) = r.success {
        if let Some(ReplyValue::Count(n)) = &r.value {
            if *n <= usize::MAX as u64 {
                return Ok(*n as usize);
            }
            return Ok(0);
        }
    }
    Ok(0)
}

/// Extract raw value from JavaScript result: the reply's value on success, `null` when
/// it has none or does not report success.
pub fn extract_value(r: &ScriptReply) -> (result: Result<ReplyValue, WebDriverErrorResponse>)
    ensures
        match result {
            Ok(v) => !reply_failed(*r) && v == (if r.success == Some(true) && r.value is Some {
                r.value.unwrap()
            } else {
                ReplyValue::Null
            }),
            Err(e) => reply_failed(*r) && is_javascript_error(e, reply_error(*r)),
        },
{
    if let Some(e) = failure(r) {
        return Err(e);
    }
    if let Some(true) = r.success {
        return Ok(
            match &r.value {
                Some(v) => copy_value(v),
                None => ReplyValue::Null,
            },
        );
    }
    Ok(ReplyValue::Null)
}

fn copy_value(v: &ReplyValue) -> (c: ReplyValue)
    ensures
        c == *v,
{
    match v {
        ReplyValue::Null => ReplyValue::Null,
        ReplyValue::Bool(b) => ReplyValue::Bool(*b),
        ReplyValue::Text(s) => ReplyValue::Text(s.clone()),
        ReplyValue::Count(n) => ReplyValue::Count(*n),
        ReplyValue::Other(s) => ReplyValue::Other(s.clone()),
    }
}

/// The attribute value in the reply of the attribute script: its string, or nothing when
/// the value is `null`, missing or not a string. The reply's success flag is not consulted.
pub fn attribute_from_reply(r: &ScriptReply) -> (attr: Option<String>)
    ensures
        match attr {
            Some(s) => r.value matches Some(ReplyValue::Text(t)) && s == t,
            None => !(r.value matches Some(ReplyValue::Text(_))),
        },
{
    match &r.value {
        Some(ReplyValue::Text(s)) => Some(s.clone()),
        _ => None,
    }
}

/// Index of the first cookie with the given name, if any.
pub open spec fn first_named(cookies: Seq<Cookie>, name: Seq<char>, i: int) -> bool {
    &&& 0 <= i < cookies.len()
    &&& cookies[i].name@ == name
    &&& forall|j: int| 0 <= j < i ==> #[trigger] cookies[j].name@ != name
}

/// Get a specific cookie by name: the first one with that name.
pub fn find_cookie(cookies: Vec<Cookie>, name: &str) -> (found: Option<Cookie>)
    ensures
        match found {
            Some(c) => exists|i: int| first_named(cookies@, name@, i) && c == cookies@[i],
            None => forall|j: int| 0 <= j < cookies@.len() ==> #[trigger] cookies@[j].name@ != name@,
        },
{
    let ghost all = cookies@;
    let mut list = cookies;
    let n = list.len();
    let mut i: usize = 0;
    while i < n
        invariant
            n == list@.len(),
            list@ == all,
            all == cookies@,
            i <= n,
            forall|j: int| 0 <= j < i ==> #[trigger] all[j].name@ != name@,
        decreases n - i,
    {
        if text_eq(list[i].name.as_str(), name) {
            let c = list.remove(i);
            proof {
                assert(c == all[i as int]);
                assert(first_named(all, name@, i as int));
                assert(exists|k: int| first_named(all, name@, k) && c == all[k]);
            }
            return Some(c);
        }
        i = i + 1;
    }
    None
}

/// The native touch event that a pointer event is dispatched as on Android.
pub open spec fn touch_type_name(t: PointerEventType) -> Seq<char> {
    match t {
        PointerEventType::Down => "down"@,
        PointerEventType::Up => "up"@,
        PointerEventType::Move => "move"@,
    }
}

pub fn touch_type_str(t: PointerEventType) -> (name: &'static str)
    ensures
        name@ == touch_type_name(t),
{
    match t {
        PointerEventType::Down => "down",
        PointerEventType::Up => "up",
        PointerEventType::Move => "move",
    }
}

/// How waiting for a reply from the web view ended.
#[derive(Debug)]
pub enum WaitOutcome<T> {
    /// The reply arrived.
    Completed(T),
    /// The web view reported an error.
    Failed(String),
    /// The reply channel closed without a reply.
    ChannelClosed,
    /// No reply within the timeout.
    TimedOut,
}

/// The result of evaluating a script: the reply, a JavaScript error, a closed channel or a
/// script timeout.
pub fn script_result<T>(outcome: WaitOutcome<T>) -> (r: Result<T, WebDriverErrorResponse>)
    ensures
        match outcome {
            WaitOutcome::Completed(v) => r == Ok::<T, WebDriverErrorResponse>(v),
            WaitOutcome::Failed(msg) => r matches Err(e) && is_javascript_error(e, msg@),
            WaitOutcome::ChannelClosed => r matches Err(e) && is_unknown_error(e, "Channel closed"@),
            WaitOutcome::TimedOut => r matches Err(e) && is_script_timeout(e),
        },
{
    match outcome {
        WaitOutcome::Completed(v) => Ok(v),
        WaitOutcome::Failed(msg) => Err(WebDriverErrorResponse::javascript_error(msg.as_str())),
        WaitOutcome::ChannelClosed => Err(WebDriverErrorResponse::unknown_error("Channel closed")),
        WaitOutcome::TimedOut => Err(WebDriverErrorResponse::script_timeout()),
    }
}

/// The result of taking a snapshot: the image, an unknown error with the web view's
/// message, a closed channel or a script timeout.
pub fn capture_result<T>(outcome: WaitOutcome<T>) -> (r: Result<T, WebDriverErrorResponse>)
    ensures
        match outcome {
            WaitOutcome::Completed(v) => r == Ok::<T, WebDriverErrorResponse>(v),
            WaitOutcome::Failed(msg) => r matches Err(e) && is_unknown_error(e, msg@),
            WaitOutcome::ChannelClosed => r matches Err(e) && is_unknown_error(e, "Channel closed"@),
            WaitOutcome::TimedOut => r matches Err(e) && is_script_timeout(e),
        },
{
    match outcome {
        WaitOutcome::Completed(v) => Ok(v),
        WaitOutcome::Failed(msg) => Err(WebDriverErrorResponse::unknown_error(msg.as_str())),
        WaitOutcome::ChannelClosed => Err(WebDriverErrorResponse::unknown_error("Channel closed")),
        WaitOutcome::TimedOut => Err(WebDriverErrorResponse::script_timeout()),
    }
}

/// The error for a failed alert operation: no such alert when the message says so, an
/// unknown error with the message otherwise.
pub fn alert_error(message: &str) -> (e: WebDriverErrorResponse)
    ensures
        contains_text(message@, "no such alert"@) ==> is_no_such_alert(e),
        !contains_text(message@, "no such alert"@) ==> is_unknown_error(e, message@),
{
    if text_contains(message, "no such alert") {
        WebDriverErrorResponse::no_such_alert()
    } else {
        WebDriverErrorResponse::unknown_error(message)
    }
}

/// The error for failing to send text to a prompt: no such alert, a prompt that is not a
/// prompt dialog, or an unknown error with the message.
pub fn prompt_error(message: &str) -> (e: WebDriverErrorResponse)
    ensures
        contains_text(message@, "no such alert"@) ==> is_no_such_alert(e),
        !contains_text(message@, "no such alert"@) && contains_text(message@, "not a prompt"@)
            ==> is_element_not_interactable(e, "User prompt is not a prompt dialog"@),
        !contains_text(message@, "no such alert"@) && !contains_text(message@, "not a prompt"@)
            ==> is_unknown_error(e, message@),
{
    if text_contains(message, "no such alert") {
        WebDriverErrorResponse::no_such_alert()
    } else if text_contains(message, "not a prompt") {
        WebDriverErrorResponse::element_not_interactable("User prompt is not a prompt dialog")
    } else {
        WebDriverErrorResponse::unknown_error(message)
    }
}

/// The number of elements that the collecting script reports: its count when the reply
/// reports success with a count that fits in `usize`, zero otherwise (a failed reply
/// included).
pub fn collected_count(r: &ScriptReply) -> (n: usize)
    ensures
        n == reply_count(*r),
{
    if let Some(true) = r.success {
        if let Some(ReplyValue::Count(c)) = &r.value {
            if *c <= usize::MAX as u64 {
                return *c as usize;
            }
        }
    }
    0
}

} // verus!
