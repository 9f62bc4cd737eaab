use vstd::prelude::*;

use crate::server::response::{is_invalid_session_id, WebDriverErrorResponse};
use crate::webdriver::session::SessionManager;

verus! {

/// Deletes a session; an unknown session ID is answered with `invalid session id`.
pub fn delete_session(sessions: &mut SessionManager, session_id: &str) -> (r: Result<
    (),
    WebDriverErrorResponse,
>)
    ensures
        final(sessions).sessions() == old(sessions).sessions().remove(session_id@),
        match r {
            Ok(_) => old(sessions).sessions().contains_key(session_id@),
            Err(e) => !old(sessions).sessions().contains_key(session_id@) && is_invalid_session_id(
                e,
                session_id@,
            ),
        },
{
    if sessions.delete(session_id) {
        Ok(())
    } else {
        Err(WebDriverErrorResponse::invalid_session_id(session_id))
    }
}

} // verus!
