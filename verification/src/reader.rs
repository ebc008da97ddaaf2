//! The reader of one connection: the state machine the background receive
//! loop runs, and the trace of events it emits.
//!
//! The embedding program spawns one reader per successful connect and loops:
//! it blocks on a socket read and feeds the outcome — data, end-of-stream,
//! or an error — into the reader, delivering whatever event comes back. The
//! reader carries a ghost trace of everything it has emitted and of every
//! chunk it has consumed, so the order of events and the relation between
//! received bytes and `Message` texts are pinned down over a connection's
//! whole lifetime, not only for a single step.

use vstd::prelude::*;
use vstd::utf8::{decode_utf8, valid_utf8};
use crate::event::{has_closed, lemma_message_texts_push, message_texts, valid_trace, Event};
use crate::text::{
    clean_payload, decode_chunk, lemma_payloads_reassemble, payload_of, remove_nuls,
};

verus! {

/// The receive loop of one connection.
pub struct Reader {
    conn: u64,
    active: bool,
    events: Ghost<Seq<Event>>,
    chunks: Ghost<Seq<Seq<u8>>>,
}

impl Reader {
    /// Every event this reader has emitted, in order.
    pub closed spec fn trace(self) -> Seq<Event> {
        self.events@
    }

    /// Every chunk of bytes this reader has received, in order.
    pub closed spec fn chunks(self) -> Seq<Seq<u8>> {
        self.chunks@
    }

    /// The generation of the connection this reader reads from.
    pub closed spec fn conn_id(self) -> u64 {
        self.conn
    }

    /// Whether the reader still loops; once inactive it never emits again.
    pub closed spec fn is_active(self) -> bool {
        self.active
    }

    /// The trace obeys the per-connection discipline; a reader that still
    /// loops has not emitted its terminal `Closed`; and the `Message` texts
    /// are, chunk for chunk, the received bytes decoded and trimmed of
    /// trailing NUL padding.
    pub open spec fn wf(self) -> bool {
        &&& valid_trace(self.trace())
        &&& self.is_active() ==> !has_closed(self.trace())
        &&& message_texts(self.trace()).len() == self.chunks().len()
        &&& forall|i: int|
            0 <= i < self.chunks().len() ==> message_texts(self.trace())[i] == payload_of(
                #[trigger] self.chunks()[i],
            )
        &&& forall|i: int|
            0 <= i < self.chunks().len() && valid_utf8(#[trigger] self.chunks()[i])
                ==> message_texts(self.trace())[i] == clean_payload(self.chunks()[i])
    }

    /// Start the reader for the connection of generation `conn`. The one
    /// `Opened` of this connection is emitted here, before any read, so it
    /// precedes every other event of the trace.
    pub fn spawn(conn: u64) -> (r: (Reader, Event))
        ensures
            r.0.wf(),
            r.0.is_active(),
            r.0.conn_id() == conn,
            r.0.trace() =~= seq![Event::Opened],
            r.0.chunks() =~= Seq::<Seq<u8>>::empty(),
            r.1 == Event::Opened,
    {
        let ghost tr: Seq<Event> = seq![Event::Opened];
        let events: Ghost<Seq<Event>> = Ghost(tr);
        let ghost ch: Seq<Seq<u8>> = seq![];
        let chunks: Ghost<Seq<Seq<u8>>> = Ghost(ch);
        let reader = Reader { conn, active: true, events, chunks };
        proof {
            reveal_with_fuel(message_texts, 2);
            assert(tr.drop_last() =~= Seq::<Event>::empty());
            assert(message_texts(tr) =~= Seq::<Seq<char>>::empty());
        }
        (reader, Event::Opened)
    }

    /// One read that returned data: emit one `Message` whose text is the
    /// chunk decoded lossily and trimmed of trailing NUL padding, and keep
    /// looping.
    pub fn on_data(&mut self, bytes: &[u8]) -> (e: Event)
        requires
            old(self).wf(),
            old(self).is_active(),
        ensures
            final(self).wf(),
            final(self).is_active(),
            final(self).conn_id() == old(self).conn_id(),
            e matches Event::Message(s) && s@ == payload_of(bytes@) && (valid_utf8(bytes@)
                ==> s@ == clean_payload(bytes@)),
            final(self).trace() == old(self).trace().push(e),
            final(self).chunks() == old(self).chunks().push(bytes@),
    {
        let text = decode_chunk(bytes);
        let e = Event::Message(text);
        proof {
            lemma_message_texts_push(self.events@, e);
            self.events@ = self.events@.push(e);
            self.chunks@ = self.chunks@.push(bytes@);
        }
        e
    }

    /// A read that returned zero bytes: the peer closed its write side.
    /// Emit the terminal `Closed` and stop looping.
    pub fn on_eof(&mut self) -> (e: Event)
        requires
            old(self).wf(),
            old(self).is_active(),
        ensures
            final(self).wf(),
            !final(self).is_active(),
            final(self).conn_id() == old(self).conn_id(),
            e == Event::Closed,
            final(self).trace() == old(self).trace().push(Event::Closed),
            final(self).chunks() == old(self).chunks(),
    {
        self.active = false;
        proof {
            lemma_message_texts_push(self.events@, Event::Closed);
            self.events@ = self.events@.push(Event::Closed);
        }
        Event::Closed
    }

    /// A read that failed. The reader stops either way, but it emits the
    /// terminal `Closed` only when its connection is still the current one
    /// (`ConnectionManager::is_current`): an error inflicted by a reconnect
    /// shutting the old socket down stays silent, so the replaced
    /// connection's end is not reported against the new connection.
    pub fn on_error(&mut self, still_current: bool) -> (e: Option<Event>)
        requires
            old(self).wf(),
            old(self).is_active(),
        ensures
            final(self).wf(),
            !final(self).is_active(),
            final(self).conn_id() == old(self).conn_id(),
            e == if still_current {
                Some(Event::Closed)
            } else {
                None::<Event>
            },
            final(self).trace() == if still_current {
                old(self).trace().push(Event::Closed)
            } else {
                old(self).trace()
            },
            final(self).chunks() == old(self).chunks(),
    {
        self.active = false;
        if still_current {
            proof {
                lemma_message_texts_push(self.events@, Event::Closed);
                self.events@ = self.events@.push(Event::Closed);
            }
            Some(Event::Closed)
        } else {
            None
        }
    }
}

/// Law: over one connection's lifetime, `Opened` is emitted exactly once
/// and first; every `Message` comes after it; and `Closed`, when present,
/// is unique and terminal.
pub proof fn lemma_opened_once_and_first(r: Reader)
    requires
        r.wf(),
    ensures
        r.trace().len() >= 1,
        r.trace()[0] is Opened,
        forall|i: int| 1 <= i < r.trace().len() ==> !(r.trace()[i] is Opened),
        forall|i: int| 0 <= i < r.trace().len() && r.trace()[i] is Closed ==> i == r.trace().len()
            - 1,
{
}

/// Law: as long as every chunk the peer's writes were split into is valid
/// UTF-8 on its own, the `Message` texts of the reader's trace,
/// concatenated and with every NUL character removed, are the decoding of
/// all bytes received, with every NUL character removed.
pub proof fn lemma_trace_reassembles_bytes(r: Reader)
    requires
        r.wf(),
        forall|i: int| 0 <= i < r.chunks().len() ==> valid_utf8(#[trigger] r.chunks()[i]),
    ensures
        valid_utf8(r.chunks().flatten()),
        remove_nuls(message_texts(r.trace()).flatten()) =~= remove_nuls(
            decode_utf8(r.chunks().flatten()),
        ),
{
    lemma_payloads_reassemble(r.chunks());
    assert(message_texts(r.trace()) =~= r.chunks().map_values(|c: Seq<u8>| clean_payload(c)));
}

} // verus!
