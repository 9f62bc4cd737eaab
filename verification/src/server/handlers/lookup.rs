use vstd::prelude::*;

use crate::server::response::{is_invalid_session_id, is_no_such_element, WebDriverErrorResponse};
use crate::webdriver::element::{ElementRef, js_ref_name};
use crate::webdriver::session::{SessionManager, Timeouts};

verus! {

/// The session must be open.
pub fn require_session(sessions: &SessionManager, session_id: &str) -> (r: Result<
    (),
    WebDriverErrorResponse,
>)
    ensures
        match r {
            Ok(_) => sessions.sessions().contains_key(session_id@),
            Err(e) => !sessions.sessions().contains_key(session_id@) && is_invalid_session_id(
                e,
                session_id@,
            ),
        },
{
    match sessions.get(session_id) {
        Some(_) => Ok(()),
        None => Err(WebDriverErrorResponse::invalid_session_id(session_id)),
    }
}

/// The current window and the timeouts of an open session.
pub fn session_context(sessions: &SessionManager, session_id: &str) -> (r: Result<
    (String, Timeouts),
    WebDriverErrorResponse,
>)
    ensures
        match r {
            Ok((window, timeouts)) => sessions.sessions().contains_key(session_id@) && window@
                == sessions.sessions()[session_id@].current_window@ && timeouts
                == sessions.sessions()[session_id@].timeouts,
            Err(e) => !sessions.sessions().contains_key(session_id@) && is_invalid_session_id(
                e,
                session_id@,
            ),
        },
{
    match sessions.get(session_id) {
        Some(session) => Ok((session.current_window.clone(), session.timeouts)),
        None => Err(WebDriverErrorResponse::invalid_session_id(session_id)),
    }
}

/// The JavaScript variable of an element stored in an open session.
pub fn element_js_ref(sessions: &SessionManager, session_id: &str, element_id: &str) -> (r:
    Result<String, WebDriverErrorResponse>)
    ensures
        match r {
            Ok(js_ref) => sessions.sessions().contains_key(session_id@)
                && sessions.sessions()[session_id@].elements.refs().contains_key(element_id@)
                && js_ref@ == sessions.sessions()[session_id@].elements.refs()[element_id@].js_ref@,
            Err(e) => if sessions.sessions().contains_key(session_id@) {
                !sessions.sessions()[session_id@].elements.refs().contains_key(element_id@)
                    && is_no_such_element(e)
            } else {
                is_invalid_session_id(e, session_id@)
            },
        },
{
    match sessions.get(session_id) {
        Some(session) => match session.elements.get(element_id) {
            Some(element) => Ok(element.js_ref.clone()),
            None => Err(WebDriverErrorResponse::no_such_element()),
        },
        None => Err(WebDriverErrorResponse::invalid_session_id(session_id)),
    }
}

/// A session after storing one element: the same but for its element store.
pub open spec fn stored_one(
    before: SessionManager,
    after: SessionManager,
    session_id: Seq<char>,
    elem: ElementRef,
) -> bool {
    let old_s = before.sessions()[session_id];
    let new_s = after.sessions()[session_id];
    &&& after.sessions().dom() == before.sessions().dom()
    &&& forall|k: Seq<char>|
        #[trigger] before.sessions().contains_key(k) && k != session_id ==> after.sessions()[k]
            == before.sessions()[k]
    &&& new_s.id == old_s.id
    &&& new_s.timeouts == old_s.timeouts
    &&& new_s.current_window == old_s.current_window
    &&& old_s.elements.refs().dom().finite()
    &&& elem.js_ref@ == js_ref_name(old_s.elements.next_index() as nat)
    &&& new_s.elements.next_index() == old_s.elements.next_index() + 1
    &&& new_s.elements.refs() == old_s.elements.refs().insert(elem.id@, elem)
}

/// Storing one element in a session keeps the session's earlier references, adds the new
/// one under its ID and, when that ID was not in use, raises the session's element count
/// by one; no other session changes.
pub proof fn lemma_stored_one_count(
    before: SessionManager,
    after: SessionManager,
    session_id: Seq<char>,
    elem: ElementRef,
)
    requires
        before.sessions().contains_key(session_id),
        stored_one(before, after, session_id, elem),
    ensures
        after.sessions().contains_key(session_id),
        after.sessions()[session_id].elements.refs().contains_key(elem.id@),
        after.sessions()[session_id].elements.refs()[elem.id@] == elem,
        forall|k: Seq<char>|
            #[trigger] before.sessions()[session_id].elements.refs().contains_key(k) && k != elem.id@
                ==> after.sessions()[session_id].elements.refs().contains_key(k)
                && after.sessions()[session_id].elements.refs()[k]
                == before.sessions()[session_id].elements.refs()[k],
        !before.sessions()[session_id].elements.refs().contains_key(elem.id@)
            ==> after.sessions()[session_id].elements.refs().len()
            == before.sessions()[session_id].elements.refs().len() + 1,
{
}

/// Stores a new element in an open session and returns its reference.
pub fn store_element(sessions: &mut SessionManager, session_id: &str) -> (r: Result<
    ElementRef,
    WebDriverErrorResponse,
>)
    requires
        old(sessions).sessions().contains_key(session_id@) ==> old(sessions).sessions()[session_id@].elements.next_index()
            < u64::MAX,
    ensures
        match r {
            Ok(elem) => old(sessions).sessions().contains_key(session_id@) && stored_one(
                *old(sessions),
                *final(sessions),
                session_id@,
                elem,
            ),
            Err(e) => !old(sessions).sessions().contains_key(session_id@) && is_invalid_session_id(
                e,
                session_id@,
            ) && final(sessions).sessions() == old(sessions).sessions(),
        },
{
    match sessions.get_mut(session_id) {
        Some(session) => {
            let elem = session.elements.store();
            proof {
                assert(final(sessions).sessions().dom() =~= old(sessions).sessions().dom());
            }
            Ok(elem)
        },
        None => Err(WebDriverErrorResponse::invalid_session_id(session_id)),
    }
}

/// `m` with each of `elems` stored under its ID, in order.
pub open spec fn with_refs(m: Map<Seq<char>, ElementRef>, elems: Seq<ElementRef>) -> Map<
    Seq<char>,
    ElementRef,
>
    decreases elems.len(),
{
    if elems.len() == 0 {
        m
    } else {
        with_refs(m, elems.drop_last()).insert(elems.last().id@, elems.last())
    }
}

/// A session after storing `elems`, one after the other: the same but for its element
/// store, whose indices named the new references in turn.
pub open spec fn stored_many(
    before: SessionManager,
    after: SessionManager,
    session_id: Seq<char>,
    elems: Seq<ElementRef>,
) -> bool {
    let old_s = before.sessions()[session_id];
    let new_s = after.sessions()[session_id];
    &&& after.sessions().dom() == before.sessions().dom()
    &&& forall|k: Seq<char>|
        #[trigger] before.sessions().contains_key(k) && k != session_id ==> after.sessions()[k]
            == before.sessions()[k]
    &&& new_s.id == old_s.id
    &&& new_s.timeouts == old_s.timeouts
    &&& new_s.current_window == old_s.current_window
    &&& forall|i: int|
        0 <= i < elems.len() ==> (#[trigger] elems[i]).js_ref@ == js_ref_name(
            (old_s.elements.next_index() + i) as nat,
        )
    &&& new_s.elements.next_index() == old_s.elements.next_index() + elems.len()
    &&& new_s.elements.refs() == with_refs(old_s.elements.refs(), elems)
}

/// Stores `count` new elements in an open session, one after the other, and returns their
/// references in order.
pub fn store_elements(sessions: &mut SessionManager, session_id: &str, count: usize) -> (r: Result<
    Vec<ElementRef>,
    WebDriverErrorResponse,
>)
    requires
        old(sessions).sessions().contains_key(session_id@) ==> old(sessions).sessions()[session_id@].elements.next_index()
            + count <= u64::MAX,
    ensures
        match r {
            Ok(elems) => old(sessions).sessions().contains_key(session_id@) && elems.len() == count
                && stored_many(*old(sessions), *final(sessions), session_id@, elems@),
            Err(e) => !old(sessions).sessions().contains_key(session_id@) && is_invalid_session_id(
                e,
                session_id@,
            ) && final(sessions).sessions() == old(sessions).sessions(),
        },
{
    require_session(sessions, session_id)?;
    let ghost start = *sessions;
    let mut elems: Vec<ElementRef> = Vec::new();
    let mut i: usize = 0;
    proof {
        assert(with_refs(start.sessions()[session_id@].elements.refs(), elems@) == start.sessions()[session_id@].elements.refs());
    }
    while i < count
        invariant
            i <= count,
            elems@.len() == i,
            start.sessions().contains_key(session_id@),
            start.sessions()[session_id@].elements.next_index() + count <= u64::MAX,
            stored_many(start, *sessions, session_id@, elems@),
        decreases count - i,
    {
        let ghost before = *sessions;
        let elem = match store_element(sessions, session_id) {
            Ok(elem) => elem,
            Err(e) => {
                return Err(e);
            },
        };
        proof {
            let old_s = start.sessions()[session_id@];
            assert(elems@.push(elem).drop_last() =~= elems@);
            assert forall|k: Seq<char>|
                #[trigger] start.sessions().contains_key(k) && k != session_id@ implies sessions.sessions()[k]
                    == start.sessions()[k] by {
                assert(before.sessions().contains_key(k));
            }
            assert forall|j: int| 0 <= j < elems@.push(elem).len() implies (#[trigger] elems@.push(
                elem,
            )[j]).js_ref@ == js_ref_name((old_s.elements.next_index() + j) as nat) by {
                if j < elems@.len() {
                    assert(elems@.push(elem)[j] == elems@[j]);
                }
            }
        }
        elems.push(elem);
        i = i + 1;
    }
    Ok(elems)
}

} // verus!
