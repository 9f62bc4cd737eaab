use vstd::prelude::*;

use super::lookup::{require_session, store_element, stored_one};
use crate::server::response::{
    is_invalid_argument, is_invalid_session_id, WebDriverErrorResponse,
};
use crate::text::concat3;
use crate::webdriver::element::ElementRef;
use crate::webdriver::locator::{selector_js, strategy_from_name, LocatorStrategy};
use crate::webdriver::session::SessionManager;

verus! {

#[derive(Debug)]
pub struct FindElementRequest {
    pub using: String,
    pub value: String,
}

#[derive(Debug)]
pub struct SendKeysRequest {
    pub text: String,
}

/// The message of the error for a locator strategy that is not known.
pub open spec fn unknown_strategy_message(using: Seq<char>) -> Seq<char> {
    "Unknown locator strategy: "@ + using
}

/// Parses the locator strategy of a find request.
pub fn parse_strategy(using: &str) -> (r: Result<LocatorStrategy, WebDriverErrorResponse>)
    ensures
        match r {
            Ok(st) => strategy_from_name(using@) == Some(st),
            Err(e) => strategy_from_name(using@) is None && is_invalid_argument(
                e,
                unknown_strategy_message(using@),
            ),
        },
{
    match LocatorStrategy::from_string(using) {
        Some(st) => Ok(st),
        None => {
            let message = concat3("Unknown locator strategy: ", using, "");
            proof {
                reveal_strlit("");
                assert(message@ =~= unknown_strategy_message(using@));
            }
            Err(WebDriverErrorResponse::invalid_argument(message.as_str()))
        },
    }
}

/// What finding one element works with: the reference stored for it and the expression
/// that finds it.
#[derive(Debug)]
pub struct FindTarget {
    pub element: ElementRef,
    pub strategy_js: String,
}

/// Prepares finding one element: checks the session and the strategy, stores a new
/// element reference in the session and builds the expression that finds the element.
/// Nothing is stored when the session is missing or the strategy is not known.
pub fn prepare_find(
    sessions: &mut SessionManager,
    session_id: &str,
    request: &FindElementRequest,
) -> (r: Result<FindTarget, WebDriverErrorResponse>)
    requires
        old(sessions).sessions().contains_key(session_id@) ==> old(sessions).sessions()[session_id@].elements.next_index()
            < u64::MAX,
    ensures
        match r {
            Ok(t) => old(sessions).sessions().contains_key(session_id@) && strategy_from_name(
                request.using@,
            ) is Some && t.strategy_js@ == selector_js(
                strategy_from_name(request.using@).unwrap(),
                request.value@,
            ) && stored_one(*old(sessions), *final(sessions), session_id@, t.element),
            Err(e) => final(sessions).sessions() == old(sessions).sessions() && if old(
                sessions,
            ).sessions().contains_key(session_id@) {
                strategy_from_name(request.using@) is None && is_invalid_argument(
                    e,
                    unknown_strategy_message(request.using@),
                )
            } else {
                is_invalid_session_id(e, session_id@)
            },
        },
{
    require_session(sessions, session_id)?;
    let strategy = parse_strategy(request.using.as_str())?;
    let element = store_element(sessions, session_id)?;
    let strategy_js = strategy.to_selector_js(request.value.as_str());
    Ok(FindTarget { element, strategy_js })
}

/// Checks what finding all elements needs: an open session and a known strategy.
pub fn prepare_find_all(sessions: &SessionManager, session_id: &str, request: &FindElementRequest) -> (r:
    Result<LocatorStrategy, WebDriverErrorResponse>)
    ensures
        match r {
            Ok(st) => sessions.sessions().contains_key(session_id@) && strategy_from_name(
                request.using@,
            ) == Some(st),
            Err(e) => if sessions.sessions().contains_key(session_id@) {
                strategy_from_name(request.using@) is None && is_invalid_argument(
                    e,
                    unknown_strategy_message(request.using@),
                )
            } else {
                is_invalid_session_id(e, session_id@)
            },
        },
{
    require_session(sessions, session_id)?;
    parse_strategy(request.using.as_str())
}

} // verus!
