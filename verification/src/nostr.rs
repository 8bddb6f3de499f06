//! Relay event parameters, modeled as plain values.
//!
//! The relay protocol types live in an outside crate; what is decided here
//! is only which event kind to publish under and which filter to subscribe
//! with, so those choices are plain records that the embedding converts to
//! the transport's own types.

use vstd::prelude::*;
use vstd::string::StringExecFns;

verus! {

/// A relay event kind: a plain event kind number.
#[derive(Clone, Copy, Debug, PartialEq, Eq, Structural)]
pub enum EventKind {
    Regular(u16),
}

/// A subscription filter: an event kind plus one single-letter tag whose
/// value list selects matching events.
#[derive(Clone, Debug, PartialEq, Eq)]
pub struct EventFilter {
    pub kind: EventKind,
    pub tag_letter: char,
    pub tag_values: Vec<String>,
}

/// The event kind that signed-message events are published under.
pub fn default_kind() -> (r: EventKind)
    ensures
        r == EventKind::Regular(1111u16),
{
    EventKind::Regular(1111)
}

/// The default subscription filter: the given kind, or `default_kind()` when
/// none is given, with the tag `c` restricted to the single value `"dephy"`.
pub fn default_filter(kind: Option<EventKind>) -> (r: EventFilter)
    ensures
        r.kind == (match kind {
            Some(k) => k,
            None => EventKind::Regular(1111u16),
        }),
        r.tag_letter == 'c',
        r.tag_values@.len() == 1 && r.tag_values@[0]@ == "dephy"@,
{
    let k = match kind {
        Some(k) => k,
        None => default_kind(),
    };
    let mut values: Vec<String> = Vec::new();
    values.push(String::from_str("dephy"));
    EventFilter { kind: k, tag_letter: 'c', tag_values: values }
}

} // verus!
