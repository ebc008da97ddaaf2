//! The connection slot: which connection is current, what a reconnect shuts
//! down, and what a `send` writes.
//!
//! The manager holds at most one current connection, identified by a
//! generation number that the embedding program maps to its real socket
//! handle. A reconnect is two steps around the blocking dial: `connect_begin`
//! clears the slot and names the old connection to shut down, and
//! `connect_finish` installs a fresh generation when the dial succeeded.
//! Because generations are never reused, a reader spawned for an old
//! connection can always be told apart from the current one.
//!
//! Unlike a design that lets the reader task install the socket into the
//! slot, the slot here is updated only through these methods, under whatever
//! exclusive access the embedding program already needs to call them; a stale
//! reader has no way to touch it.

use vstd::prelude::*;
use vstd::string::*;
use vstd::utf8::encode_utf8;

verus! {

/// A planned write: which connection to write on, and the exact bytes.
pub struct SendOp {
    /// Generation number of the connection to write on.
    pub conn: u64,
    /// The raw UTF-8 bytes of the message, with no terminator or framing.
    pub bytes: Vec<u8>,
}

/// Owns the single current-connection slot.
pub struct ConnectionManager {
    current: Option<u64>,
    next_id: u64,
}

impl ConnectionManager {
    /// The generation of the current connection, if one is installed.
    pub closed spec fn current_id(self) -> Option<u64> {
        self.current
    }

    /// The generation the next successful dial will receive.
    pub closed spec fn generation(self) -> u64 {
        self.next_id
    }

    /// Any installed connection is older than the next generation, so a
    /// fresh connection never collides with one already handed out.
    pub open spec fn wf(self) -> bool {
        self.current_id() is Some ==> self.current_id()->0 < self.generation()
    }

    /// How `connect_begin` relates the state before to the state after and
    /// to the connection it asks the caller to shut down.
    pub open spec fn connect_begin_post(pre: Self, post: Self, shutdown: Option<u64>) -> bool {
        &&& shutdown == pre.current_id()
        &&& post.current_id() is None
        &&& post.generation() == pre.generation()
    }

    /// How `connect_finish` relates the state before to the state after and
    /// to the generation it opened, given whether the dial succeeded.
    pub open spec fn connect_finish_post(
        pre: Self,
        dialed: bool,
        post: Self,
        opened: Option<u64>,
    ) -> bool {
        if dialed {
            &&& opened == Some(pre.generation())
            &&& post.current_id() == opened
            &&& post.generation() == pre.generation() + 1
        } else {
            &&& opened is None
            &&& post == pre
        }
    }

    /// A manager with no connection; the state at startup.
    pub fn new() -> (m: Self)
        ensures
            m.wf(),
            m.current_id() is None,
            m.generation() == 0,
    {
        ConnectionManager { current: None, next_id: 0 }
    }

    /// First half of a (re)connect: empty the slot and name the connection
    /// the caller must shut down, both directions, before dialing anew. When
    /// the slot was empty there is nothing to shut down.
    pub fn connect_begin(&mut self) -> (shutdown: Option<u64>)
        requires
            old(self).wf(),
        ensures
            final(self).wf(),
            Self::connect_begin_post(*old(self), *final(self), shutdown),
    {
        let shutdown = self.current.take();
        shutdown
    }

    /// Second half of a (re)connect, fed the outcome of the dial. On success
    /// the slot receives a fresh generation, which the caller hands to the
    /// reader it spawns; on failure the slot stays as `connect_begin` left
    /// it, so a failed reconnect leaves no current connection.
    pub fn connect_finish(&mut self, dialed: bool) -> (opened: Option<u64>)
        requires
            old(self).wf(),
            dialed ==> old(self).generation() < u64::MAX,
        ensures
            final(self).wf(),
            Self::connect_finish_post(*old(self), dialed, *final(self), opened),
    {
        if dialed {
            let id = self.next_id;
            self.next_id = id + 1;
            self.current = Some(id);
            Some(id)
        } else {
            None
        }
    }

    /// The generation the next successful dial will receive. A caller checks
    /// this against `u64::MAX` before `connect_finish`; generations are
    /// never reused, so the supply is finite, if inexhaustible in practice.
    pub fn next_generation(&self) -> (g: u64)
        ensures
            g == self.generation(),
    {
        self.next_id
    }

    /// Whether the connection of generation `id` is still the current one.
    /// A reader asks this when its read fails, to tell a shutdown inflicted
    /// by a reconnect from a failure of a connection still in the slot.
    pub fn is_current(&self, id: u64) -> (r: bool)
        ensures
            r == (self.current_id() == Some(id)),
    {
        match &self.current {
            Some(c) => *c == id,
            None => false,
        }
    }

    /// Plan a `send`: with a current connection, the plan carries exactly the
    /// message's UTF-8 bytes, unframed and unterminated, for that connection;
    /// with none, there is no plan — no write, no event, no error.
    pub fn send_plan(&self, message: &str) -> (op: Option<SendOp>)
        ensures
            op is Some <==> self.current_id() is Some,
            op is Some ==> op->0.conn == self.current_id()->0,
            op is Some ==> op->0.bytes@ == encode_utf8(message@),
    {
        match &self.current {
            Some(c) => Some(SendOp { conn: *c, bytes: message.as_bytes_vec() }),
            None => None,
        }
    }
}

/// Law: a reconnect issued while a connection is active asks the caller to
/// shut down exactly the old connection, installs exactly one new one, and
/// leaves the old one stale: the slot holds a generation the old connection
/// can never equal, so the old reader's `is_current` check fails and its
/// termination can neither report `Closed` against the new connection nor
/// touch the slot.
pub proof fn lemma_reconnect_replaces(
    m0: ConnectionManager,
    m1: ConnectionManager,
    m2: ConnectionManager,
    shutdown: Option<u64>,
    opened: Option<u64>,
)
    requires
        m0.wf(),
        m0.current_id() is Some,
        ConnectionManager::connect_begin_post(m0, m1, shutdown),
        ConnectionManager::connect_finish_post(m1, true, m2, opened),
    ensures
        shutdown == m0.current_id(),
        opened is Some,
        m2.current_id() == opened,
        opened->0 != shutdown->0,
        m2.current_id() != m0.current_id(),
{
}

} // verus!
