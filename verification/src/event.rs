//! Lookup of key/value attributes in execution-log events, used to confirm
//! that a downstream contract emitted a specific action before trusting the
//! values that accompany it.

use vstd::prelude::*;

verus! {

/// One key/value pair of an execution-log event.
#[derive(Debug, Clone)]
pub struct Attribute {
    pub key: String,
    pub value: String,
}

/// A structured log record emitted during contract execution: an event type
/// and an ordered list of key/value attributes. Attribute order is execution
/// order and plays no role in lookup.
#[derive(Debug, Clone)]
pub struct Event {
    pub ty: String,
    pub attributes: Vec<Attribute>,
}

/// Whether `attrs` holds at least one attribute whose key and value are
/// exactly `key` and `value` — case-sensitive, no trimming.
pub open spec fn has_attr(attrs: Seq<Attribute>, key: Seq<char>, value: Seq<char>) -> bool {
    exists|i: int|
        0 <= i < attrs.len() && (#[trigger] attrs[i]).key@ == key && attrs[i].value@ == value
}

/// Relies on `str`'s `PartialEq`: two string slices are equal exactly when
/// they hold the same characters.
#[verifier::external_body]
fn str_eq(a: &str, b: &str) -> (r: bool)
    ensures
        r == (a@ == b@),
{
    a == b
}

/// Determine whether an event contains a specific key-value pair. True iff
/// at least one attribute matches both strings exactly; false for an event
/// with no attributes or no match.
pub fn event_contains_attr(event: &Event, key: &str, value: &str) -> (found: bool)
    ensures
        found == has_attr(event.attributes@, key@, value@),
{
    let mut i: usize = 0;
    while i < event.attributes.len()
        invariant
            i <= event.attributes@.len(),
            forall|j: int|
                0 <= j < i ==> !((#[trigger] event.attributes@[j]).key@ == key@
                    && event.attributes@[j].value@ == value@),
        decreases event.attributes@.len() - i,
    {
        let attr = &event.attributes[i];
        if str_eq(attr.key.as_str(), key) && str_eq(attr.value.as_str(), value) {
            proof {
                assert(event.attributes@[i as int].key@ == key@
                    && event.attributes@[i as int].value@ == value@);
            }
            return true;
        }
        i += 1;
    }
    false
}

/// Matching is exact on the whole key — case-sensitive, no trimming: if every
/// attribute key differs from `key` in as much as one character, no pair with
/// that key is contained, whatever the value.
pub proof fn lemma_contains_exact_key(attrs: Seq<Attribute>, key: Seq<char>, value: Seq<char>)
    requires
        forall|j: int| 0 <= j < attrs.len() ==> (#[trigger] attrs[j]).key@ != key,
    ensures
        !has_attr(attrs, key, value),
{
}

/// Lookup has no hidden state: any two answers that meet
/// `event_contains_attr`'s contract for the same attributes, key and value
/// are the same answer.
pub proof fn lemma_contains_deterministic(
    attrs: Seq<Attribute>,
    key: Seq<char>,
    value: Seq<char>,
    found1: bool,
    found2: bool,
)
    requires
        found1 == has_attr(attrs, key, value),
        found2 == has_attr(attrs, key, value),
    ensures
        found1 == found2,
{
}

} // verus!
