//! In-memory session model (no persistence).

use vstd::prelude::*;

use crate::protocol::ids::{PeerId, SessionCode, SessionId};
use crate::protocol::messages::Role;

verus! {

/// Handle of the outbound queue through which the server writes to one
/// peer's connection (the server keeps the queue itself, keyed by this value).
pub type OutboundTx = u64;

/// A peer attached to a session.
#[derive(Debug, Clone, Copy, PartialEq, Eq, Structural)]
pub struct PeerSlot {
    /// Peer identifier.
    pub peer_id: PeerId,
    /// Host or Guest.
    pub role: Role,
    /// Outbound queue towards the peer's connection.
    pub outbound: OutboundTx,
}

/// The abstract state of a session.
pub struct SessionModel {
    /// Session identifier.
    pub id: SessionId,
    /// Text of the 6-digit code.
    pub code: Seq<char>,
    /// Host slot.
    pub host: Option<PeerSlot>,
    /// Guest slot.
    pub guest: Option<PeerSlot>,
    /// Last activity (create / join / forward / leave), in clock milliseconds.
    pub last_activity: u64,
}

/// Relay session: at most one host and one guest.
#[derive(Debug)]
pub struct Session {
    /// Session identifier.
    pub id: SessionId,
    /// 6-digit code.
    pub code: SessionCode,
    /// Host slot.
    pub host: Option<PeerSlot>,
    /// Guest slot.
    pub guest: Option<PeerSlot>,
    /// Last activity (create / join / forward / leave), in clock milliseconds.
    pub last_activity: u64,
}

impl View for Session {
    type V = SessionModel;

    open spec fn view(&self) -> SessionModel {
        SessionModel {
            id: self.id,
            code: self.code@,
            host: self.host,
            guest: self.guest,
            last_activity: self.last_activity,
        }
    }
}

/// The slot of the peer other than `peer_id`, when `peer_id` is attached.
pub open spec fn other_peer_of(s: SessionModel, peer_id: PeerId) -> Option<PeerSlot> {
    if s.host matches Some(h) && h.peer_id == peer_id {
        s.guest
    } else if s.guest matches Some(g) && g.peer_id == peer_id {
        s.host
    } else {
        None
    }
}

/// Number of attached peers.
pub open spec fn peer_count_of(s: SessionModel) -> nat {
    (if s.host is Some {
        1nat
    } else {
        0nat
    }) + (if s.guest is Some {
        1nat
    } else {
        0nat
    })
}

/// `peer_id` occupies a slot of the session.
pub open spec fn has_peer(s: SessionModel, peer_id: PeerId) -> bool {
    (s.host matches Some(h) && h.peer_id == peer_id) || (s.guest matches Some(g) && g.peer_id
        == peer_id)
}

/// The session without `peer_id`; its activity time becomes `now` when a slot
/// was freed.
pub open spec fn without_peer(s: SessionModel, peer_id: PeerId, now: u64) -> SessionModel {
    SessionModel {
        id: s.id,
        code: s.code,
        host: if s.host matches Some(h) && h.peer_id == peer_id {
            None
        } else {
            s.host
        },
        guest: if s.guest matches Some(g) && g.peer_id == peer_id {
            None
        } else {
            s.guest
        },
        last_activity: if has_peer(s, peer_id) {
            now
        } else {
            s.last_activity
        },
    }
}

impl Session {
    /// A new session with no peers, active at `now`.
    pub fn new(id: SessionId, code: SessionCode, now: u64) -> (r: Self)
        ensures
            r@ == (SessionModel { id, code: code@, host: None, guest: None, last_activity: now }),
    {
        Session { id, code, host: None, guest: None, last_activity: now }
    }

    /// Records activity at `now`.
    pub fn touch(&mut self, now: u64)
        ensures
            final(self)@ == (SessionModel { last_activity: now, ..old(self)@ }),
    {
        self.last_activity = now;
    }

    /// Number of attached peers.
    pub fn peer_count(&self) -> (r: usize)
        ensures
            r == peer_count_of(self@),
    {
        let h: usize = if self.host.is_some() {
            1
        } else {
            0
        };
        let g: usize = if self.guest.is_some() {
            1
        } else {
            0
        };
        h + g
    }

    /// The slot of the other peer, if `peer_id` is attached and the other slot
    /// is taken.
    pub fn other_peer(&self, peer_id: PeerId) -> (r: Option<&PeerSlot>)
        ensures
            match r {
                Some(p) => other_peer_of(self@, peer_id) == Some(*p),
                None => other_peer_of(self@, peer_id) is None,
            },
    {
        match (&self.host, &self.guest) {
            (Some(h), _) if h.peer_id == peer_id => self.guest.as_ref(),
            (_, Some(g)) if g.peer_id == peer_id => self.host.as_ref(),
            _ => None,
        }
    }

    /// Removes a peer; returns `true` if it was attached (activity is then
    /// recorded at `now`).
    pub fn remove_peer(&mut self, peer_id: PeerId, now: u64) -> (r: bool)
        ensures
            r == has_peer(old(self)@, peer_id),
            final(self)@ == without_peer(old(self)@, peer_id, now),
    {
        let mut removed = false;
        if let Some(p) = &self.host {
            if p.peer_id == peer_id {
                self.host = None;
                removed = true;
            }
        }
        if let Some(p) = &self.guest {
            if p.peer_id == peer_id {
                self.guest = None;
                removed = true;
            }
        }
        if removed {
            self.touch(now);
        }
        removed
    }
}

} // verus!
