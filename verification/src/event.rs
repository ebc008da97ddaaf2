//! Events delivered to the UI collaborator, and the shape a single
//! connection's event trace is allowed to have.

use vstd::prelude::*;

verus! {

/// A notification about one connection, consumed by the UI layer.
#[derive(Debug, PartialEq, Eq)]
pub enum Event {
    /// The connection was opened; emitted once, first.
    Opened,
    /// One inbound read, decoded and trimmed of trailing NUL padding.
    Message(String),
    /// The connection ended; emitted at most once, last.
    Closed,
}

/// True when `t` contains a `Closed` event.
pub open spec fn has_closed(t: Seq<Event>) -> bool {
    exists|i: int| 0 <= i < t.len() && t[i] is Closed
}

/// The texts of the `Message` events of `t`, in order.
pub open spec fn message_texts(t: Seq<Event>) -> Seq<Seq<char>>
    decreases t.len(),
{
    if t.len() == 0 {
        seq![]
    } else {
        let rest = message_texts(t.drop_last());
        match t.last() {
            Event::Message(s) => rest.push(s@),
            _ => rest,
        }
    }
}

/// Appending an event appends its text to the message texts when it is a
/// `Message`, and leaves them unchanged otherwise.
pub proof fn lemma_message_texts_push(t: Seq<Event>, e: Event)
    ensures
        e matches Event::Message(s) ==> message_texts(t.push(e)) == message_texts(t).push(s@),
        !(e is Message) ==> message_texts(t.push(e)) == message_texts(t),
{
    assert(t.push(e).drop_last() =~= t);
}

/// The discipline every per-connection trace obeys: it starts with the one
/// and only `Opened`, and `Closed` can only be its last element.
pub open spec fn valid_trace(t: Seq<Event>) -> bool {
    &&& t.len() >= 1
    &&& t[0] is Opened
    &&& forall|i: int| 1 <= i < t.len() ==> !(t[i] is Opened)
    &&& forall|i: int| 0 <= i < t.len() && t[i] is Closed ==> i == t.len() - 1
}

} // verus!
