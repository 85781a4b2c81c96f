//! The connection registry: the single source of truth for which subscribers
//! are currently registered, together with the live-connection counter.
//!
//! A registered connection is a pair of a connection identifier (a 128-bit
//! value chosen at subscribe time, unique among the registered connections)
//! and an opaque socket handle token that the runtime uses to address the
//! underlying socket. The registry never touches a socket itself: `broadcast`
//! and `close_all` return the list of send/close actions to perform, one per
//! registered connection, and the runtime carries them out.

use vstd::prelude::*;

verus! {

/// WebSocket close code sent to every subscriber when the publisher leaves
/// ("going away").
pub const GOING_AWAY: u16 = 1001;

/// One registered subscriber connection: its identifier and the socket
/// handle token it was registered with.
#[derive(Clone, Copy, PartialEq, Eq, Structural, Debug)]
pub struct Connection {
    pub id: u128,
    pub handle: u64,
}

/// An instruction to the runtime: either send `text` on the socket named by
/// `handle`, or close that socket with `code`.
#[derive(Debug, PartialEq, Eq)]
pub enum Action {
    SendText { handle: u64, text: String },
    CloseSocket { handle: u64, code: u16 },
}

/// True when `a` sends exactly `t` on the socket handle `h`.
pub open spec fn is_send(a: Action, h: u64, t: Seq<char>) -> bool {
    a matches Action::SendText { handle, text } && handle == h && text@ == t
}

/// True when `a` closes the socket handle `h` with close code `c`.
pub open spec fn is_close(a: Action, h: u64, c: u16) -> bool {
    a matches Action::CloseSocket { handle, code } && handle == h && code == c
}

/// True when `acts` is exactly one send of `t` to each connection of `conns`,
/// in registry order.
pub open spec fn is_broadcast_of(acts: Seq<Action>, conns: Seq<Connection>, t: Seq<char>) -> bool {
    &&& acts.len() == conns.len()
    &&& forall|i: int| 0 <= i < acts.len() ==> is_send(acts[i], conns[i].handle, t)
}

/// True when `acts` closes each connection of `conns` with the "going away"
/// code, in registry order.
pub open spec fn is_close_all_of(acts: Seq<Action>, conns: Seq<Connection>) -> bool {
    &&& acts.len() == conns.len()
    &&& forall|i: int| 0 <= i < acts.len() ==> is_close(acts[i], conns[i].handle, GOING_AWAY)
}

/// True when no two entries of `s` share a connection identifier.
pub open spec fn distinct_ids(s: Seq<Connection>) -> bool {
    forall|i: int, j: int| 0 <= i < j < s.len() ==> s[i].id != s[j].id
}

/// The connection registry and its live-connection counter.
pub struct Registry {
    conns: Vec<Connection>,
    connections: usize,
}

impl Registry {
    /// The registered connections, in registration order.
    pub closed spec fn entries(self) -> Seq<Connection> {
        self.conns@
    }

    /// The live-connection counter.
    pub closed spec fn count(self) -> int {
        self.connections as int
    }

    /// Some registered connection carries the identifier `id`.
    pub open spec fn has_id(self, id: u128) -> bool {
        exists|i: int| 0 <= i < self.entries().len() && self.entries()[i].id == id
    }

    /// Registry invariant: identifiers are unique among registered
    /// connections, and the counter equals the registry's size.
    pub open spec fn wf(self) -> bool {
        &&& distinct_ids(self.entries())
        &&& self.count() == self.entries().len()
    }

    /// An empty registry: no connections, counter at zero.
    pub fn new() -> (r: Registry)
        ensures
            r.wf(),
            r.entries().len() == 0,
            r.count() == 0,
    {
        Registry { conns: Vec::new(), connections: 0 }
    }

    /// The live-connection counter.
    pub fn connection_count(&self) -> (n: usize)
        ensures
            n == self.count(),
    {
        self.connections
    }

    /// Whether `id` is currently registered.
    pub fn contains_id(&self, id: u128) -> (b: bool)
        ensures
            b == self.has_id(id),
    {
        let n = self.conns.len();
        let mut i: usize = 0;
        while i < n
            invariant
                i <= n,
                n == self.conns@.len(),
                forall|j: int| 0 <= j < i ==> self.conns@[j].id != id,
            decreases n - i,
        {
            if self.conns[i].id == id {
                proof {
                    assert(self.entries()[i as int].id == id);
                }
                return true;
            }
            i += 1;
        }
        false
    }

    /// Inserts the connection `id` with socket handle token `handle`.
    ///
    /// If `id` is not yet registered the entry is appended and the counter
    /// grows by exactly one; if it is already present nothing changes and
    /// `false` comes back.
    pub fn insert(&mut self, id: u128, handle: u64) -> (ok: bool)
        requires
            old(self).wf(),
        ensures
            final(self).wf(),
            ok == !old(self).has_id(id),
            ok ==> final(self).entries() == old(self).entries().push(
                Connection { id, handle },
            ) && final(self).count() == old(self).count() + 1,
            !ok ==> final(self).entries() == old(self).entries() && final(self).count() == old(
                self,
            ).count(),
    {
        if self.contains_id(id) {
            return false;
        }
        self.conns.push(Connection { id, handle });
        // The counter keeps tracking the registry's size, which the push just
        // grew by one.
        let n = self.conns.len();
        self.connections = n;
        true
    }

    /// Unregisters the connection `id`.
    ///
    /// If `id` is registered its entry — and only its entry — is removed, the
    /// counter shrinks by exactly one, and the entry's socket handle token
    /// comes back; if it is not registered nothing changes.
    pub fn remove(&mut self, id: u128) -> (r: Option<u64>)
        requires
            old(self).wf(),
        ensures
            final(self).wf(),
            r is Some <==> old(self).has_id(id),
            r is None ==> final(self).entries() == old(self).entries() && final(self).count()
                == old(self).count(),
            r matches Some(h) ==> exists|i: int|
                0 <= i < old(self).entries().len() && old(self).entries()[i].id == id && old(
                    self,
                ).entries()[i].handle == h && final(self).entries() == old(self).entries().remove(i)
                    && final(self).count() == old(self).count() - 1,
    {
        let n = self.conns.len();
        let mut i: usize = 0;
        while i < n
            invariant
                i <= n,
                n == self.conns@.len(),
                self.conns@ == old(self).conns@,
                self.connections == old(self).connections,
                old(self).wf(),
                forall|j: int| 0 <= j < i ==> self.conns@[j].id != id,
            decreases n - i,
        {
            if self.conns[i].id == id {
                let c = self.conns.remove(i);
                self.connections = self.connections - 1;
                proof {
                    assert(old(self).entries()[i as int].id == id);
                    assert forall|p: int, q: int|
                        0 <= p < q < self.entries().len() implies self.entries()[p].id
                        != self.entries()[q].id by {
                        assert(self.entries() == old(self).entries().remove(i as int));
                    }
                }
                return Some(c.handle);
            }
            i += 1;
        }
        None
    }

    /// Builds the broadcast plan for `text`: one send of `text` to every
    /// currently registered connection, in registry order. The registry
    /// itself is untouched; with no registered connections the plan is empty.
    pub fn broadcast(&self, text: &String) -> (acts: Vec<Action>)
        ensures
            is_broadcast_of(acts@, self.entries(), text@),
    {
        let mut acts: Vec<Action> = Vec::new();
        let n = self.conns.len();
        let mut i: usize = 0;
        while i < n
            invariant
                i <= n,
                n == self.conns@.len(),
                acts@.len() == i,
                forall|j: int| 0 <= j < i ==> is_send(acts@[j], self.conns@[j].handle, text@),
            decreases n - i,
        {
            let t = text.clone();
            acts.push(Action::SendText { handle: self.conns[i].handle, text: t });
            i += 1;
        }
        acts
    }

    /// Empties the registry: every registered connection gets a close action
    /// with the "going away" code, in registry order, and the counter drops
    /// to zero.
    pub fn close_all(&mut self) -> (acts: Vec<Action>)
        requires
            old(self).wf(),
        ensures
            final(self).wf(),
            final(self).entries().len() == 0,
            final(self).count() == 0,
            is_close_all_of(acts@, old(self).entries()),
    {
        let mut acts: Vec<Action> = Vec::new();
        let n = self.conns.len();
        let mut i: usize = 0;
        while i < n
            invariant
                i <= n,
                n == self.conns@.len(),
                self.conns@ == old(self).conns@,
                self.connections == old(self).connections,
                acts@.len() == i,
                forall|j: int| 0 <= j < i ==> is_close(acts@[j], self.conns@[j].handle, GOING_AWAY),
            decreases n - i,
        {
            acts.push(Action::CloseSocket { handle: self.conns[i].handle, code: GOING_AWAY });
            i += 1;
        }
        self.conns.clear();
        self.connections = 0;
        acts
    }
}

} // verus!
