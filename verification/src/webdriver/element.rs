use vstd::prelude::*;

use crate::id_map::IdMap;
use crate::text::{decimal, decimal_u64, lemma_decimal_injective};

verus! {

/// The shape of a hyphenated lower-case UUID: 36 characters, hyphens at positions
/// 8, 13, 18 and 23, lower-case hexadecimal digits everywhere else.
pub open spec fn is_uuid_text(s: Seq<char>) -> bool {
    &&& s.len() == 36
    &&& forall|i: int|
        0 <= i < 36 ==> if i == 8 || i == 13 || i == 18 || i == 23 {
            #[trigger] s[i] == '-'
        } else {
            ('0' <= s[i] <= '9') || ('a' <= s[i] <= 'f')
        }
}

/// Calls `uuid::Uuid::new_v4` and formats the result with `to_string`. The UUID is
/// random; what every outcome shares is its text form, which `uuid` writes hyphenated
/// in lower case (`Display` goes through `LowerHex` and `format_hyphenated`).
#[verifier::external_body]
pub(crate) fn new_uuid_string() -> (s: String)
    ensures
        is_uuid_text(s@),
{
    uuid::Uuid::new_v4().to_string()
}

/// Represents a WebDriver element reference
#[derive(Debug, Clone)]
pub struct ElementRef {
    /// WebDriver element ID (returned to client)
    pub id: String,
    /// JavaScript variable name holding the element reference
    pub js_ref: String,
}

/// The name of the JavaScript variable that holds the element stored with index `n`.
pub open spec fn js_ref_name(n: nat) -> Seq<char> {
    "__wd_el_"@ + decimal(n)
}

/// Storage for element references within a session
#[derive(Debug)]
pub struct ElementStore {
    elements: IdMap<ElementRef>,
    /// Counter for generating unique JS variable names
    counter: u64,
}

impl ElementStore {
    /// The stored references, by WebDriver ID.
    pub closed spec fn refs(&self) -> Map<Seq<char>, ElementRef> {
        self.elements@
    }

    /// The index that the next stored element gets.
    pub closed spec fn next_index(&self) -> u64 {
        self.counter
    }

    pub fn new() -> (store: Self)
        ensures
            store.refs() == Map::<Seq<char>, ElementRef>::empty(),
            store.next_index() == 0,
    {
        Self { elements: IdMap::new(), counter: 0 }
    }

    /// The index that the next stored element gets.
    pub fn next_ref_index(&self) -> (n: u64)
        ensures
            n == self.next_index(),
    {
        self.counter
    }

    /// Store a new element and return its reference
    pub fn store(&mut self) -> (elem: ElementRef)
        requires
            old(self).next_index() < u64::MAX,
        ensures
            is_uuid_text(elem.id@),
            old(self).refs().dom().finite(),
            elem.js_ref@ == js_ref_name(old(self).next_index() as nat),
            final(self).next_index() == old(self).next_index() + 1,
            final(self).refs() == old(self).refs().insert(elem.id@, elem),
    {
        let id = new_uuid_string();
        let elem = self.store_with_id(id);
        elem
    }

    /// Stores a new element under the given WebDriver ID and returns its reference.
    pub fn store_with_id(&mut self, id: String) -> (elem: ElementRef)
        requires
            old(self).next_index() < u64::MAX,
        ensures
            elem.id@ == id@,
            old(self).refs().dom().finite(),
            elem.js_ref@ == js_ref_name(old(self).next_index() as nat),
            final(self).next_index() == old(self).next_index() + 1,
            final(self).refs() == old(self).refs().insert(id@, elem),
    {
        let digits = decimal_u64(self.counter);
        let mut js_ref = String::new();
        js_ref.append("__wd_el_");
        js_ref.append(digits.as_str());
        proof {
            assert(js_ref@ =~= js_ref_name(self.counter as nat));
        }
        self.counter = self.counter + 1;
        let elem_ref = ElementRef { id: id.clone(), js_ref };
        let stored = ElementRef { id: elem_ref.id.clone(), js_ref: elem_ref.js_ref.clone() };
        self.elements.insert(id, stored);
        elem_ref
    }

    /// Get element by WebDriver ID
    pub fn get(&self, id: &str) -> (r: Option<&ElementRef>)
        ensures
            match r {
                Some(e) => self.refs().contains_key(id@) && *e == self.refs()[id@],
                None => !self.refs().contains_key(id@),
            },
    {
        self.elements.get(id)
    }

    /// Remove an element reference
    pub fn remove(&mut self, id: &str) -> (removed: bool)
        ensures
            old(self).refs().dom().finite(),
            removed == old(self).refs().contains_key(id@),
            final(self).refs() == old(self).refs().remove(id@),
            final(self).next_index() == old(self).next_index(),
    {
        self.elements.remove(id)
    }

    /// Clear all stored elements
    pub fn clear(&mut self)
        ensures
            final(self).refs() == Map::<Seq<char>, ElementRef>::empty(),
            final(self).next_index() == old(self).next_index(),
    {
        self.elements.clear();
        // Don't reset counter to avoid JS variable name collisions
    }

    /// Get the number of stored elements
    pub fn count(&self) -> (n: usize)
        ensures
            n == self.refs().len(),
            self.refs().dom().finite(),
    {
        self.elements.len()
    }
}

/// Elements stored with different indices get different JavaScript variables; since
/// `store` hands out each index once and no operation lowers the index, no two stored
/// elements of one store share a variable, even across `clear`.
pub proof fn lemma_js_ref_names_distinct(a: nat, b: nat)
    requires
        a != b,
    ensures
        js_ref_name(a) != js_ref_name(b),
{
    let p = "__wd_el_"@;
    if js_ref_name(a) == js_ref_name(b) {
        assert(decimal(a) =~= js_ref_name(a).subrange(p.len() as int, js_ref_name(a).len() as int));
        assert(decimal(b) =~= js_ref_name(b).subrange(p.len() as int, js_ref_name(b).len() as int));
        lemma_decimal_injective(a, b);
    }
}

/// What one call of `store` (or `store_with_id`) does to a store: the new reference is
/// named by the next index and kept under its ID, and the index moves on by one.
pub open spec fn store_step(before: ElementStore, after: ElementStore, elem: ElementRef) -> bool {
    &&& before.refs().dom().finite()
    &&& elem.js_ref@ == js_ref_name(before.next_index() as nat)
    &&& after.next_index() == before.next_index() + 1
    &&& after.refs() == before.refs().insert(elem.id@, elem)
}

/// What one call of `remove` does to a store.
pub open spec fn remove_step(before: ElementStore, after: ElementStore, id: Seq<char>, removed: bool) -> bool {
    &&& before.refs().dom().finite()
    &&& removed == before.refs().contains_key(id)
    &&& after.refs() == before.refs().remove(id)
    &&& after.next_index() == before.next_index()
}

/// An element that `store` adds is found under its ID, every other stored element stays
/// as it was, and the count grows by one when the ID was not in use.
pub proof fn lemma_stored_element_found(before: ElementStore, after: ElementStore, elem: ElementRef)
    requires
        store_step(before, after, elem),
    ensures
        after.refs().contains_key(elem.id@),
        after.refs()[elem.id@] == elem,
        forall|k: Seq<char>|
            k != elem.id@ ==> (#[trigger] after.refs().contains_key(k) == before.refs().contains_key(k))
                && (before.refs().contains_key(k) ==> after.refs()[k] == before.refs()[k]),
        after.refs().dom().finite(),
        !before.refs().contains_key(elem.id@) ==> after.refs().len() == before.refs().len() + 1,
{
}

/// An element that `remove` takes out is no longer found, removing it again reports that
/// nothing was removed, and the count drops by one exactly when something was removed.
pub proof fn lemma_removed_element_gone(before: ElementStore, after: ElementStore, id: Seq<char>, removed: bool)
    requires
        remove_step(before, after, id, removed),
    ensures
        !after.refs().contains_key(id),
        after.refs().remove(id) == after.refs(),
        removed ==> after.refs().len() + 1 == before.refs().len(),
        !removed ==> after.refs().len() == before.refs().len(),
{
    assert(after.refs().remove(id) =~= after.refs());
    if !removed {
        assert(after.refs() =~= before.refs());
    }
}

/// No JavaScript variable is handed out twice by one store: `store` moves the index on by
/// one and `remove` and `clear` keep it, so a store made after another one (from a state
/// whose index is at least where the first left it) names a different variable, whatever
/// was removed or cleared in between.
pub proof fn lemma_store_names_never_repeat(
    a_before: ElementStore,
    a_after: ElementStore,
    first: ElementRef,
    b_before: ElementStore,
    b_after: ElementStore,
    second: ElementRef,
)
    requires
        store_step(a_before, a_after, first),
        store_step(b_before, b_after, second),
        a_after.next_index() <= b_before.next_index(),
    ensures
        first.js_ref@ != second.js_ref@,
{
    lemma_js_ref_names_distinct(a_before.next_index() as nat, b_before.next_index() as nat);
}

/// One call on an element store, as a history records it: a `store` with the reference
/// it returned, a `remove` of an ID, or a `clear`.
pub enum StoreCall {
    Store(ElementRef),
    Remove(Seq<char>),
    Clear,
}

/// What one call does to a store, by the call's contract.
pub open spec fn call_step(before: ElementStore, after: ElementStore, call: StoreCall) -> bool {
    match call {
        StoreCall::Store(elem) => store_step(before, after, elem),
        StoreCall::Remove(id) => {
            &&& before.refs().dom().finite()
            &&& after.refs() == before.refs().remove(id)
            &&& after.next_index() == before.next_index()
        },
        StoreCall::Clear => {
            &&& after.refs() == Map::<Seq<char>, ElementRef>::empty()
            &&& after.next_index() == before.next_index()
        },
    }
}

/// `states` are the successive states of one store and `calls` the calls between them.
pub open spec fn is_store_history(states: Seq<ElementStore>, calls: Seq<StoreCall>) -> bool {
    &&& states.len() == calls.len() + 1
    &&& forall|i: int| 0 <= i < calls.len() ==> #[trigger] call_step(states[i], states[i + 1], calls[i])
}

/// The reference under `id` after the calls: the one the latest `store` of that ID
/// returned, unless a `remove` of that ID or a `clear` came after it.
pub open spec fn live_ref(calls: Seq<StoreCall>, id: Seq<char>) -> Option<ElementRef>
    decreases calls.len(),
{
    if calls.len() == 0 {
        None
    } else {
        match calls.last() {
            StoreCall::Store(elem) => if elem.id@ == id {
                Some(elem)
            } else {
                live_ref(calls.drop_last(), id)
            },
            StoreCall::Remove(k) => if k == id {
                None
            } else {
                live_ref(calls.drop_last(), id)
            },
            StoreCall::Clear => None,
        }
    }
}

/// The number of `store` calls among the calls.
pub open spec fn store_count(calls: Seq<StoreCall>) -> nat
    decreases calls.len(),
{
    if calls.len() == 0 {
        0
    } else {
        store_count(calls.drop_last()) + if calls.last() is Store {
            1nat
        } else {
            0nat
        }
    }
}

proof fn lemma_history_prefix(states: Seq<ElementStore>, calls: Seq<StoreCall>, k: int)
    requires
        is_store_history(states, calls),
        0 <= k <= calls.len(),
    ensures
        is_store_history(states.take(k + 1), calls.take(k)),
{
    assert forall|i: int| 0 <= i < calls.take(k).len() implies #[trigger] call_step(
        states.take(k + 1)[i],
        states.take(k + 1)[i + 1],
        calls.take(k)[i],
    ) by {
        assert(call_step(states[i], states[i + 1], calls[i]));
    }
}

proof fn lemma_history_index(states: Seq<ElementStore>, calls: Seq<StoreCall>)
    requires
        is_store_history(states, calls),
        states[0].next_index() == 0,
    ensures
        states.last().next_index() == store_count(calls),
    decreases calls.len(),
{
    if calls.len() > 0 {
        let n = calls.len() - 1;
        lemma_history_prefix(states, calls, n);
        assert(states.take(n + 1)[0] == states[0]);
        assert(calls.take(n) =~= calls.drop_last());
        lemma_history_index(states.take(n + 1), calls.take(n));
        assert(call_step(states[n], states[n + 1], calls[n]));
    }
}

proof fn lemma_history_index_grows(states: Seq<ElementStore>, calls: Seq<StoreCall>, i: int, j: int)
    requires
        is_store_history(states, calls),
        0 <= i <= j < states.len(),
    ensures
        states[i].next_index() <= states[j].next_index(),
    decreases j - i,
{
    if i < j {
        let k = j - 1;
        lemma_history_index_grows(states, calls, i, k);
        assert(call_step(states[k], states[k + 1], calls[k]));
    }
}

/// Over any history of calls on a store made by `new`, what `get` finds under an ID is
/// the reference that the latest `store` of that ID returned, unless that ID was removed
/// or the store cleared since; and the `n`-th `store` names the variable `__wd_el_n`
/// (counting from zero), `clear` not setting the count back.
pub proof fn lemma_store_history(states: Seq<ElementStore>, calls: Seq<StoreCall>)
    requires
        is_store_history(states, calls),
        states[0].refs() == Map::<Seq<char>, ElementRef>::empty(),
        states[0].next_index() == 0,
    ensures
        forall|id: Seq<char>|
            #[trigger] states.last().refs().contains_key(id) == live_ref(calls, id) is Some,
        forall|id: Seq<char>|
            #[trigger] states.last().refs().contains_key(id) ==> states.last().refs()[id]
                == live_ref(calls, id)->Some_0,
        forall|i: int|
            0 <= i < calls.len() && #[trigger] calls[i] is Store ==> calls[i]->Store_0.js_ref@
                == js_ref_name(store_count(calls.take(i))),
    decreases calls.len(),
{
    if calls.len() > 0 {
        let n = calls.len() - 1;
        lemma_history_prefix(states, calls, n);
        let prev = states.take(n + 1);
        assert(prev[0] == states[0]);
        assert(calls.take(n) =~= calls.drop_last());
        lemma_store_history(prev, calls.take(n));
        assert(prev.last() == states[n]);
        assert(call_step(states[n], states[n + 1], calls[n]));
        assert forall|i: int|
            0 <= i < calls.len() && #[trigger] calls[i] is Store implies calls[i]->Store_0.js_ref@
                == js_ref_name(store_count(calls.take(i))) by {
            if i < n {
                assert(calls.take(n)[i] == calls[i]);
                assert(calls.take(n).take(i) =~= calls.take(i));
            } else {
                lemma_history_index(prev, calls.take(n));
                assert(calls.take(i) =~= calls.take(n));
            }
        }
    }
}

/// Over any history of calls on one store, two different `store` calls never name the
/// same JavaScript variable, whatever was removed or cleared before, between or after.
pub proof fn lemma_history_names_distinct(states: Seq<ElementStore>, calls: Seq<StoreCall>, i: int, j: int)
    requires
        is_store_history(states, calls),
        0 <= i < j < calls.len(),
        calls[i] is Store,
        calls[j] is Store,
    ensures
        calls[i]->Store_0.js_ref@ != calls[j]->Store_0.js_ref@,
{
    assert(call_step(states[i], states[i + 1], calls[i]));
    assert(call_step(states[j], states[j + 1], calls[j]));
    lemma_history_index_grows(states, calls, i + 1, j);
    lemma_store_names_never_repeat(
        states[i],
        states[i + 1],
        calls[i]->Store_0,
        states[j],
        states[j + 1],
        calls[j]->Store_0,
    );
}

/// After `clear` no element is stored.
pub proof fn lemma_cleared_store_empty(s: ElementStore)
    requires
        s.refs() == Map::<Seq<char>, ElementRef>::empty(),
    ensures
        s.refs().len() == 0,
        forall|k: Seq<char>| !#[trigger] s.refs().contains_key(k),
{
}

} // verus!
