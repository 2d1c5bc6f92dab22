//! In-memory registry of the live sessions.

use vstd::prelude::*;

use crate::clock::Clock;
use crate::protocol::error::ProtocolError;
use crate::protocol::ids::{is_session_code_text, is_v4_uuid, PeerId, SessionCode, SessionId};
use crate::protocol::messages::{Message, Role};
use crate::protocol::validate::{message_is_valid, validate_message};
use crate::relay::code::generate_session_code;
use crate::relay::session::{
    other_peer_of, peer_count_of, without_peer, OutboundTx, PeerSlot, Session, SessionModel,
};

verus! {

/// Registry errors.
#[derive(Debug, PartialEq, Eq)]
pub enum RegistryError {
    /// Unknown code or missing session.
    NotFound,
    /// Guest slot already taken.
    SessionFull,
    /// No unused code could be generated.
    CodeExhausted,
    /// The message could not be encoded.
    Encode(String),
}

/// The abstract registry: live sessions by identifier.
pub type RegistryModel = Map<SessionId, SessionModel>;

/// Some live session uses `code`.
pub open spec fn code_in_use(m: RegistryModel, code: Seq<char>) -> bool {
    exists|id: SessionId| #[trigger] m.contains_key(id) && m[id].code == code
}

/// The live session that uses `code` (meaningful when [`code_in_use`]).
pub open spec fn session_with_code(m: RegistryModel, code: Seq<char>) -> SessionId {
    choose|id: SessionId| #[trigger] m.contains_key(id) && m[id].code == code
}

/// Live sessions have pairwise distinct codes and are keyed by their own id.
pub open spec fn registry_wf(m: RegistryModel) -> bool {
    &&& forall|a: SessionId, b: SessionId|
        #![trigger m[a], m[b]]
        m.contains_key(a) && m.contains_key(b) && m[a].code == m[b].code ==> a == b
    &&& forall|a: SessionId| #[trigger] m.contains_key(a) ==> m[a].id == a
}

/// The session a new host creates.
pub open spec fn hosted_session(
    id: SessionId,
    code: Seq<char>,
    host_id: PeerId,
    outbound: OutboundTx,
    now: u64,
) -> SessionModel {
    SessionModel {
        id,
        code,
        host: Some(PeerSlot { peer_id: host_id, role: Role::Host, outbound }),
        guest: None,
        last_activity: now,
    }
}

/// Outcome of a join by `code` (result and new registry), when the guest
/// would get `guest_id` at time `now`.
pub open spec fn join_outcome(
    m: RegistryModel,
    code: Seq<char>,
    outbound: OutboundTx,
    guest_id: PeerId,
    now: u64,
) -> (Result<(SessionId, PeerId, PeerId), RegistryError>, RegistryModel) {
    if !code_in_use(m, code) {
        (Err(RegistryError::NotFound), m)
    } else {
        let id = session_with_code(m, code);
        let s = m[id];
        if s.guest is Some {
            (Err(RegistryError::SessionFull), m)
        } else if let Some(h) = s.host {
            (
                Ok((id, guest_id, h.peer_id)),
                m.insert(
                    id,
                    SessionModel {
                        guest: Some(PeerSlot { peer_id: guest_id, role: Role::Guest, outbound }),
                        last_activity: now,
                        ..s
                    },
                ),
            )
        } else {
            (Err(RegistryError::NotFound), m)
        }
    }
}

/// The registry after recording activity of session `id` at `now`.
pub open spec fn touched(m: RegistryModel, id: SessionId, now: u64) -> RegistryModel {
    if m.contains_key(id) {
        m.insert(id, SessionModel { last_activity: now, ..m[id] })
    } else {
        m
    }
}

/// The slot of `peer_id` in the session (host first).
pub open spec fn slot_of(s: SessionModel, peer_id: PeerId) -> Option<PeerSlot> {
    if s.host matches Some(h) && h.peer_id == peer_id {
        s.host
    } else if s.guest matches Some(g) && g.peer_id == peer_id {
        s.guest
    } else {
        None
    }
}

/// The registry after `peer_id` leaves session `id` at `now`: the session is
/// destroyed once it has no peer left.
pub open spec fn after_detach(m: RegistryModel, id: SessionId, peer_id: PeerId, now: u64) -> RegistryModel {
    if !m.contains_key(id) {
        m
    } else {
        let s = without_peer(m[id], peer_id, now);
        if peer_count_of(s) == 0 {
            m.remove(id)
        } else {
            m.insert(id, s)
        }
    }
}

/// No activity for longer than `ttl` at `now`.
pub open spec fn is_stale(s: SessionModel, now: u64, ttl: u64) -> bool {
    now >= s.last_activity && now - s.last_activity > ttl
}

/// The sessions that are not stale at `now`.
pub open spec fn fresh_sessions(m: RegistryModel, now: u64, ttl: u64) -> RegistryModel {
    Map::new(|id: SessionId| m.contains_key(id) && !is_stale(m[id], now, ttl), |id: SessionId| m[id])
}

/// `o` is the outbound queue of a peer of a stale session.
pub open spec fn is_stale_outbound(m: RegistryModel, now: u64, ttl: u64, o: OutboundTx) -> bool {
    exists|id: SessionId|
        #![trigger m[id]]
        m.contains_key(id) && is_stale(m[id], now, ttl) && ((m[id].host matches Some(h)
            && h.outbound == o) || (m[id].guest matches Some(g) && g.outbound == o))
}

/// The first of the candidate codes that no live session uses.
pub open spec fn first_unused(m: RegistryModel, cands: Seq<Seq<char>>) -> Option<Seq<char>>
    decreases cands.len(),
{
    if cands.len() == 0 {
        None
    } else if !code_in_use(m, cands[0]) {
        Some(cands[0])
    } else {
        first_unused(m, cands.drop_first())
    }
}

/// Outcome of a creation (result and new registry) with candidate codes
/// `cands`, session `id`, host `host_id` and activity time `now`: the session
/// takes the first free candidate; with none free it fails with
/// `CodeExhausted` and nothing changes.
pub open spec fn create_outcome(
    m: RegistryModel,
    cands: Seq<Seq<char>>,
    id: SessionId,
    host_id: PeerId,
    outbound: OutboundTx,
    now: u64,
) -> (Result<(SessionId, Seq<char>, PeerId), RegistryError>, RegistryModel) {
    match first_unused(m, cands) {
        Some(code) => (Ok((id, code, host_id)), m.insert(id, hosted_session(id, code, host_id, outbound, now))),
        None => (Err(RegistryError::CodeExhausted), m),
    }
}

/// The texts of session codes.
pub open spec fn code_views(v: Seq<SessionCode>) -> Seq<Seq<char>> {
    v.map_values(|c: SessionCode| c@)
}

/// A creation result with its code by its text.
pub open spec fn created_view(r: Result<(SessionId, SessionCode, PeerId), RegistryError>) -> Result<
    (SessionId, Seq<char>, PeerId),
    RegistryError,
> {
    match r {
        Ok((id, code, host_id)) => Ok((id, code@, host_id)),
        Err(e) => Err(e),
    }
}

/// No candidate is free when all are in use.
proof fn lemma_first_unused_none(m: RegistryModel, cands: Seq<Seq<char>>)
    requires
        forall|k: int| 0 <= k < cands.len() ==> code_in_use(m, #[trigger] cands[k]),
    ensures
        first_unused(m, cands) is None,
    decreases cands.len(),
{
    if cands.len() > 0 {
        assert(code_in_use(m, cands[0]));
        let rest = cands.drop_first();
        assert forall|k: int| 0 <= k < rest.len() implies code_in_use(m, #[trigger] rest[k]) by {
            assert(rest[k] == cands[k + 1]);
        }
        lemma_first_unused_none(m, rest);
    }
}

/// When all but the last candidate are in use and the last is free, the last
/// is the first free one.
proof fn lemma_first_unused_last(m: RegistryModel, cands: Seq<Seq<char>>)
    requires
        cands.len() >= 1,
        forall|k: int| 0 <= k < cands.len() - 1 ==> code_in_use(m, #[trigger] cands[k]),
        !code_in_use(m, cands[cands.len() - 1]),
    ensures
        first_unused(m, cands) == Some(cands[cands.len() - 1]),
    decreases cands.len(),
{
    if cands.len() > 1 {
        assert(code_in_use(m, cands[0]));
        let rest = cands.drop_first();
        assert forall|k: int| 0 <= k < rest.len() - 1 implies code_in_use(m, #[trigger] rest[k]) by {
            assert(rest[k] == cands[k + 1]);
        }
        lemma_first_unused_last(m, rest);
    }
}

spec fn has_index(s: Seq<Session>, id: SessionId) -> bool {
    exists|i: int| 0 <= i < s.len() && #[trigger] s[i].id == id
}

spec fn index_of(s: Seq<Session>, id: SessionId) -> int {
    choose|i: int| 0 <= i < s.len() && #[trigger] s[i].id == id
}

spec fn seq_view(s: Seq<Session>) -> RegistryModel {
    Map::new(|id: SessionId| has_index(s, id), |id: SessionId| s[index_of(s, id)]@)
}

spec fn sessions_wf(s: Seq<Session>) -> bool {
    forall|i: int, j: int|
        #![trigger s[i], s[j]]
        0 <= i < j < s.len() ==> s[i].id != s[j].id && s[i].code@ != s[j].code@
}

proof fn lemma_view_at(s: Seq<Session>, i: int)
    requires
        sessions_wf(s),
        0 <= i < s.len(),
    ensures
        seq_view(s).contains_key(s[i].id),
        seq_view(s)[s[i].id] == s[i]@,
{
    assert(has_index(s, s[i].id));
    let j = index_of(s, s[i].id);
    assert(s[j].id == s[i].id);
    if j != i {
        if j < i {
            assert(s[j].id != s[i].id);
        } else {
            assert(s[i].id != s[j].id);
        }
    }
}

proof fn lemma_view_wf(s: Seq<Session>)
    requires
        sessions_wf(s),
    ensures
        registry_wf(seq_view(s)),
        forall|c: Seq<char>|
            code_in_use(seq_view(s), c) <==> exists|i: int| 0 <= i < s.len() && #[trigger] s[i].code@ == c,
{
    let m = seq_view(s);
    assert forall|a: SessionId, b: SessionId|
        #![trigger m[a], m[b]]
        m.contains_key(a) && m.contains_key(b) && m[a].code == m[b].code implies a == b by {
        let i = index_of(s, a);
        let j = index_of(s, b);
        lemma_view_at(s, i);
        lemma_view_at(s, j);
        if i < j {
            assert(s[i].code@ != s[j].code@);
        } else if j < i {
            assert(s[j].code@ != s[i].code@);
        }
    }
    assert forall|a: SessionId| #[trigger] m.contains_key(a) implies m[a].id == a by {
        lemma_view_at(s, index_of(s, a));
    }
    assert forall|c: Seq<char>|
        code_in_use(m, c) <==> exists|i: int| 0 <= i < s.len() && #[trigger] s[i].code@ == c by {
        if code_in_use(m, c) {
            let id = choose|id: SessionId| #[trigger] m.contains_key(id) && m[id].code == c;
            let i = index_of(s, id);
            lemma_view_at(s, i);
            assert(s[i].code@ == c);
        }
        if exists|i: int| 0 <= i < s.len() && #[trigger] s[i].code@ == c {
            let i = choose|i: int| 0 <= i < s.len() && #[trigger] s[i].code@ == c;
            lemma_view_at(s, i);
            assert(m.contains_key(s[i].id) && m[s[i].id].code == c);
        }
    }
}

proof fn lemma_view_update(s: Seq<Session>, i: int, x: Session)
    requires
        sessions_wf(s),
        0 <= i < s.len(),
        x.id == s[i].id,
        x.code@ == s[i].code@,
    ensures
        sessions_wf(s.update(i, x)),
        seq_view(s.update(i, x)) == seq_view(s).insert(x.id, x@),
{
    let t = s.update(i, x);
    assert(sessions_wf(t));
    assert forall|id: SessionId| has_index(t, id) <==> has_index(s, id) by {
        if has_index(t, id) {
            let k = index_of(t, id);
            assert(s[k].id == id);
        }
        if has_index(s, id) {
            let k = index_of(s, id);
            assert(t[k].id == id);
        }
    }
    assert forall|id: SessionId| #[trigger] seq_view(t).contains_key(id) implies seq_view(t)[id]
        == seq_view(s).insert(x.id, x@)[id] by {
        let k = index_of(t, id);
        lemma_view_at(t, k);
        lemma_view_at(s, k);
    }
    assert(seq_view(t) =~= seq_view(s).insert(x.id, x@));
}

proof fn lemma_view_push(s: Seq<Session>, x: Session)
    requires
        sessions_wf(s),
        forall|i: int| 0 <= i < s.len() ==> #[trigger] s[i].id != x.id && s[i].code@ != x.code@,
    ensures
        sessions_wf(s.push(x)),
        seq_view(s.push(x)) == seq_view(s).insert(x.id, x@),
{
    let t = s.push(x);
    assert(sessions_wf(t)) by {
        assert forall|i: int, j: int|
            #![trigger t[i], t[j]]
            0 <= i < j < t.len() implies t[i].id != t[j].id && t[i].code@ != t[j].code@ by {
            if j < s.len() {
                assert(s[i] == t[i] && s[j] == t[j]);
            } else {
                assert(t[i] == s[i]);
            }
        }
    }
    assert forall|id: SessionId| has_index(t, id) <==> (has_index(s, id) || id == x.id) by {
        if has_index(t, id) {
            let k = index_of(t, id);
            if k < s.len() {
                assert(s[k].id == id);
            }
        }
        if has_index(s, id) {
            let k = index_of(s, id);
            assert(t[k].id == id);
        }
        if id == x.id {
            assert(t[s.len() as int].id == id);
        }
    }
    assert forall|id: SessionId| #[trigger] seq_view(t).contains_key(id) implies seq_view(t)[id]
        == seq_view(s).insert(x.id, x@)[id] by {
        let k = index_of(t, id);
        lemma_view_at(t, k);
        if k < s.len() {
            assert(t[k] == s[k]);
            lemma_view_at(s, k);
        }
    }
    assert(seq_view(t) =~= seq_view(s).insert(x.id, x@));
}

proof fn lemma_view_remove(s: Seq<Session>, i: int)
    requires
        sessions_wf(s),
        0 <= i < s.len(),
    ensures
        sessions_wf(s.remove(i)),
        seq_view(s.remove(i)) == seq_view(s).remove(s[i].id),
{
    let t = s.remove(i);
    assert(sessions_wf(t)) by {
        assert forall|a: int, b: int|
            #![trigger t[a], t[b]]
            0 <= a < b < t.len() implies t[a].id != t[b].id && t[a].code@ != t[b].code@ by {
            let a2 = if a < i {
                a
            } else {
                a + 1
            };
            let b2 = if b < i {
                b
            } else {
                b + 1
            };
            assert(t[a] == s[a2] && t[b] == s[b2]);
        }
    }
    assert forall|id: SessionId| has_index(t, id) <==> (has_index(s, id) && id != s[i].id) by {
        if has_index(t, id) {
            let k = index_of(t, id);
            let k2 = if k < i {
                k
            } else {
                k + 1
            };
            assert(t[k] == s[k2]);
            if k2 < i {
                assert(s[k2].id != s[i].id);
            } else {
                assert(s[i].id != s[k2].id);
            }
        }
        if has_index(s, id) && id != s[i].id {
            let k = index_of(s, id);
            if k < i {
                assert(t[k] == s[k]);
            } else {
                assert(t[k - 1] == s[k]);
            }
        }
    }
    assert forall|id: SessionId| #[trigger] seq_view(t).contains_key(id) implies seq_view(t)[id]
        == seq_view(s).remove(s[i].id)[id] by {
        let k = index_of(t, id);
        lemma_view_at(t, k);
        let k2 = if k < i {
            k
        } else {
            k + 1
        };
        assert(t[k] == s[k2]);
        lemma_view_at(s, k2);
    }
    assert(seq_view(t) =~= seq_view(s).remove(s[i].id));
}

proof fn lemma_view_len(s: Seq<Session>)
    requires
        sessions_wf(s),
    ensures
        seq_view(s).dom().finite(),
        seq_view(s).len() == s.len(),
{
    let ids = s.map_values(|x: Session| x.id);
    assert forall|i: int, j: int| 0 <= i < ids.len() && 0 <= j < ids.len() && i != j implies ids[i]
        != ids[j] by {
        if i < j {
            assert(s[i].id != s[j].id);
        } else {
            assert(s[j].id != s[i].id);
        }
    }
    assert(ids.no_duplicates());
    ids.unique_seq_to_set();
    assert forall|id: SessionId| ids.to_set().contains(id) <==> has_index(s, id) by {
        if ids.to_set().contains(id) {
            let k = choose|k: int| 0 <= k < ids.len() && ids[k] == id;
            assert(s[k].id == id);
        }
        if has_index(s, id) {
            let k = index_of(s, id);
            assert(ids[k] == id);
        }
    }
    assert(seq_view(s).dom() =~= ids.to_set());
}

proof fn lemma_take_wf(s: Seq<Session>, k: int)
    requires
        sessions_wf(s),
        0 <= k <= s.len(),
    ensures
        sessions_wf(s.take(k)),
{
    let t = s.take(k);
    assert forall|i: int, j: int|
        #![trigger t[i], t[j]]
        0 <= i < j < t.len() implies t[i].id != t[j].id && t[i].code@ != t[j].code@ by {
        assert(t[i] == s[i] && t[j] == s[j]);
    }
}

proof fn lemma_take_step(s: Seq<Session>, k: int)
    requires
        sessions_wf(s),
        0 <= k < s.len(),
    ensures
        sessions_wf(s.take(k)),
        s.take(k + 1) == s.take(k).push(s[k]),
        seq_view(s.take(k + 1)) == seq_view(s.take(k)).insert(s[k].id, s[k]@),
        !seq_view(s.take(k)).contains_key(s[k].id),
        forall|c: Seq<char>| code_in_use(seq_view(s.take(k)), c) ==> c != s[k].code@,
{
    lemma_take_wf(s, k);
    let t = s.take(k);
    assert(s.take(k + 1) =~= t.push(s[k]));
    assert forall|i: int| 0 <= i < t.len() implies #[trigger] t[i].id != s[k].id && t[i].code@
        != s[k].code@ by {
        assert(t[i] == s[i]);
    }
    lemma_view_push(t, s[k]);
    lemma_view_wf(t);
    if seq_view(t).contains_key(s[k].id) {
        let i = index_of(t, s[k].id);
        assert(t[i].id == s[k].id);
    }
}

/// Shared registry of the live sessions.
#[derive(Debug)]
pub struct SessionRegistry {
    clock: Clock,
    sessions: Vec<Session>,
}

impl View for SessionRegistry {
    type V = RegistryModel;

    closed spec fn view(&self) -> RegistryModel {
        seq_view(self.sessions@)
    }
}

impl SessionRegistry {
    #[verifier::type_invariant]
    spec fn sessions_are_wf(self) -> bool {
        sessions_wf(self.sessions@)
    }

    /// An empty registry.
    pub fn new() -> (r: Self)
        ensures
            r@ == Map::<SessionId, SessionModel>::empty(),
            registry_wf(r@),
    {
        let r = SessionRegistry { clock: Clock::new(), sessions: Vec::new() };
        assert(r@ =~= Map::<SessionId, SessionModel>::empty());
        r
    }

    /// Number of live sessions.
    pub fn session_count(&self) -> (r: usize)
        ensures
            r == self@.len(),
    {
        proof {
            use_type_invariant(self);
            lemma_view_len(self.sessions@);
        }
        self.sessions.len()
    }

    fn index_of_id(&self, id: SessionId) -> (r: Option<usize>)
        ensures
            match r {
                Some(i) => i < self.sessions@.len() && self.sessions@[i as int].id == id,
                None => !self@.contains_key(id),
            },
    {
        let n = self.sessions.len();
        let mut i: usize = 0;
        while i < n
            invariant
                n == self.sessions@.len(),
                i <= n,
                forall|j: int| 0 <= j < i ==> #[trigger] self.sessions@[j].id != id,
            decreases n - i,
        {
            if self.sessions[i].id == id {
                return Some(i);
            }
            i = i + 1;
        }
        None
    }

    fn index_of_code(&self, code: &SessionCode) -> (r: Option<usize>)
        ensures
            match r {
                Some(i) => i < self.sessions@.len() && self.sessions@[i as int].code@ == code@,
                None => forall|j: int|
                    0 <= j < self.sessions@.len() ==> #[trigger] self.sessions@[j].code@ != code@,
            },
    {
        let n = self.sessions.len();
        let mut i: usize = 0;
        while i < n
            invariant
                n == self.sessions@.len(),
                i <= n,
                forall|j: int| 0 <= j < i ==> #[trigger] self.sessions@[j].code@ != code@,
            decreases n - i,
        {
            if self.sessions[i].code.same_as(code) {
                return Some(i);
            }
            i = i + 1;
        }
        None
    }

    /// Adds the session of a new host, replacing any session with the same id.
    fn insert_hosted(
        &mut self,
        id: SessionId,
        code: SessionCode,
        host_id: PeerId,
        outbound: OutboundTx,
        now: u64,
    )
        requires
            !code_in_use(old(self)@, code@),
        ensures
            final(self)@ == old(self)@.insert(id, hosted_session(id, code@, host_id, outbound, now)),
    {
        proof {
            use_type_invariant(&*self);
            lemma_view_wf(self.sessions@);
        }
        let mut sessions: Vec<Session> = Vec::new();
        std::mem::swap(&mut sessions, &mut self.sessions);
        let ghost s0 = sessions@;
        match index_of_id_in(&sessions, id) {
            Some(i) => {
                proof {
                    lemma_view_at(s0, i as int);
                    lemma_view_remove(s0, i as int);
                }
                sessions.remove(i);
            },
            None => {},
        }
        let mut session = Session::new(id, code, now);
        session.host = Some(PeerSlot { peer_id: host_id, role: Role::Host, outbound });
        proof {
            let s1 = sessions@;
            assert forall|k: int| 0 <= k < s1.len() implies #[trigger] s1[k].id != id
                && s1[k].code@ != session.code@ by {
                lemma_view_at(s1, k);
                assert(seq_view(s1).contains_key(s1[k].id));
                assert(seq_view(s0).contains_key(s1[k].id));
                assert(seq_view(s0)[s1[k].id] == s1[k]@);
            }
            lemma_view_push(s1, session);
            assert(session@ == hosted_session(id, code@, host_id, outbound, now));
        }
        sessions.push(session);
        self.sessions = sessions;
        assert(self@ =~= old(self)@.insert(id, hosted_session(id, code@, host_id, outbound, now)));
    }

    /// Creates the session of a new host with identifier `session_id`, host
    /// `host_id` and activity time `now`, using the first of `candidates` that
    /// no live session uses; fails with `CodeExhausted`, changing nothing, when
    /// every candidate is in use (see [`create_outcome`]).
    #[verifier::spinoff_prover]
    pub fn create_session_with(
        &mut self,
        candidates: &Vec<SessionCode>,
        session_id: SessionId,
        host_id: PeerId,
        host_outbound: OutboundTx,
        now: u64,
    ) -> (r: Result<(SessionId, SessionCode, PeerId), RegistryError>)
        ensures
            registry_wf(final(self)@),
            (created_view(r), final(self)@) == create_outcome(
                old(self)@,
                code_views(candidates@),
                session_id,
                host_id,
                host_outbound,
                now,
            ),
    {
        proof {
            use_type_invariant(&*self);
            lemma_view_wf(self.sessions@);
        }
        let ghost m0 = self@;
        let ghost views = code_views(candidates@);
        assert(views.skip(0) =~= views);
        let mut i: usize = 0;
        while i < candidates.len()
            invariant
                sessions_wf(self.sessions@),
                self@ == m0,
                m0 == old(self)@,
                views == code_views(candidates@),
                i <= candidates@.len(),
                forall|c: Seq<char>|
                    code_in_use(seq_view(self.sessions@), c) <==> exists|k: int|
                        0 <= k < self.sessions@.len() && #[trigger] self.sessions@[k].code@ == c,
                first_unused(m0, views) == first_unused(m0, views.skip(i as int)),
            decreases candidates@.len() - i,
        {
            proof {
                assert(views.skip(i as int)[0] == candidates@[i as int]@);
                assert(views.skip(i as int).drop_first() =~= views.skip(i + 1));
            }
            if self.index_of_code(&candidates[i]).is_none() {
                let code = candidates[i].clone();
                proof {
                    assert(!code_in_use(m0, code@));
                }
                self.insert_hosted(session_id, code.clone(), host_id, host_outbound, now);
                proof {
                    use_type_invariant(&*self);
                    lemma_view_wf(self.sessions@);
                }
                return Ok((session_id, code, host_id));
            }
            i = i + 1;
        }
        proof {
            assert(views.skip(i as int).len() == 0);
        }
        Err(RegistryError::CodeExhausted)
    }

    /// Creates a session with a fresh random code and attaches the host to it:
    /// up to 32 random codes are drawn until one is free; an empty registry
    /// always succeeds.
    #[verifier::spinoff_prover]
    pub fn create_session(&mut self, host_outbound: OutboundTx) -> (r: Result<
        (SessionId, SessionCode, PeerId),
        RegistryError,
    >)
        ensures
            registry_wf(final(self)@),
            exists|cands: Seq<Seq<char>>, id: SessionId, host_id: PeerId, now: u64|
                {
                    &&& 1 <= cands.len() <= 32
                    &&& forall|k: int| 0 <= k < cands.len() ==> is_session_code_text(#[trigger] cands[k])
                    &&& (created_view(r), final(self)@) == #[trigger] create_outcome(
                        old(self)@,
                        cands,
                        id,
                        host_id,
                        host_outbound,
                        now,
                    )
                },
            old(self)@.len() == 0 ==> r is Ok,
            r matches Ok((id, code, host_id)) ==> is_v4_uuid(id.0) && is_v4_uuid(host_id.0),
            r matches Ok((id, code, host_id)) ==> !code_in_use(old(self)@, code@),
            r matches Ok((id, code, host_id)) ==> exists|now: u64|
                final(self)@ == old(self)@.insert(
                    id,
                    #[trigger] hosted_session(id, code@, host_id, host_outbound, now),
                ),
            r is Err ==> r == Err::<(SessionId, SessionCode, PeerId), RegistryError>(
                RegistryError::CodeExhausted,
            ) && final(self)@ == old(self)@ && exists|cands: Seq<Seq<char>>|
                cands.len() == 32 && forall|k: int|
                    0 <= k < cands.len() ==> code_in_use(old(self)@, #[trigger] cands[k]),
    {
        proof {
            use_type_invariant(&*self);
            lemma_view_wf(self.sessions@);
        }
        let ghost m0 = self@;
        let mut cands: Vec<SessionCode> = Vec::new();
        let mut found = false;
        let mut attempt: usize = 0;
        while attempt < 32 && !found
            invariant
                sessions_wf(self.sessions@),
                self@ == m0,
                m0 == old(self)@,
                forall|c: Seq<char>|
                    code_in_use(seq_view(self.sessions@), c) <==> exists|i: int|
                        0 <= i < self.sessions@.len() && #[trigger] self.sessions@[i].code@ == c,
                attempt <= 32,
                cands@.len() == attempt,
                forall|k: int|
                    0 <= k < cands@.len() ==> is_session_code_text(#[trigger] code_views(cands@)[k]),
                forall|k: int|
                    0 <= k < cands@.len() - (if found { 1int } else { 0 }) ==> code_in_use(
                        m0,
                        #[trigger] code_views(cands@)[k],
                    ),
                found ==> cands@.len() >= 1 && !code_in_use(m0, code_views(cands@)[cands@.len() - 1]),
            decreases 32 - attempt,
        {
            let candidate = match generate_session_code() {
                Ok(c) => c,
                Err(e) => {
                    return Err(RegistryError::Encode(e.to_string()));
                },
            };
            if self.index_of_code(&candidate).is_none() {
                found = true;
            }
            let ghost before = cands@;
            cands.push(candidate);
            proof {
                assert(code_views(cands@) =~= code_views(before).push(candidate@));
            }
            attempt = attempt + 1;
        }
        let ghost views = code_views(cands@);
        if !found {
            proof {
                lemma_first_unused_none(m0, views);
                lemma_view_len(self.sessions@);
                if m0.len() == 0 {
                    assert(code_in_use(seq_view(self.sessions@), views[0]));
                    assert(self.sessions@.len() == 0);
                    assert(false);
                }
                assert(create_outcome(m0, views, SessionId(0), PeerId(0), host_outbound, 0).1 == m0);
            }
            return Err(RegistryError::CodeExhausted);
        }
        proof {
            lemma_first_unused_last(m0, views);
        }
        let session_id = SessionId::new();
        let peer_id = PeerId::new();
        let now = self.clock.now_ms();
        let r = self.create_session_with(&cands, session_id, peer_id, host_outbound, now);
        proof {
            assert(r is Ok);
        }
        r
    }

    /// Attaches a guest, with identifier `guest_id`, to the session of `code`
    /// at time `now`.
    #[verifier::spinoff_prover]
    pub fn join_session_at(
        &mut self,
        code: &SessionCode,
        guest_outbound: OutboundTx,
        guest_id: PeerId,
        now: u64,
    ) -> (r: Result<(SessionId, PeerId, PeerId), RegistryError>)
        ensures
            registry_wf(final(self)@),
            (r, final(self)@) == join_outcome(old(self)@, code@, guest_outbound, guest_id, now),
    {
        proof {
            use_type_invariant(&*self);
            lemma_view_wf(self.sessions@);
        }
        let ghost m = self@;
        let i = match self.index_of_code(code) {
            Some(i) => i,
            None => {
                return Err(RegistryError::NotFound);
            },
        };
        proof {
            lemma_view_at(self.sessions@, i as int);
            let id = session_with_code(m, code@);
            assert(m.contains_key(self.sessions@[i as int].id));
            assert(m[self.sessions@[i as int].id].code == code@);
            assert(id == self.sessions@[i as int].id);
        }
        if self.sessions[i].guest.is_some() {
            return Err(RegistryError::SessionFull);
        }
        let host_id = match &self.sessions[i].host {
            Some(h) => h.peer_id,
            None => {
                return Err(RegistryError::NotFound);
            },
        };
        let session_id = self.sessions[i].id;
        let mut sessions: Vec<Session> = Vec::new();
        std::mem::swap(&mut sessions, &mut self.sessions);
        let ghost s0 = sessions@;
        let mut session = sessions.remove(i);
        session.guest = Some(PeerSlot { peer_id: guest_id, role: Role::Guest, outbound: guest_outbound });
        session.touch(now);
        proof {
            assert(sessions@.insert(i as int, session) =~= s0.update(i as int, session));
            lemma_view_update(s0, i as int, session);
        }
        sessions.insert(i, session);
        self.sessions = sessions;
        proof {
            lemma_view_wf(self.sessions@);
            let id = session_with_code(m, code@);
            assert(self@ =~= join_outcome(m, code@, guest_outbound, guest_id, now).1);
        }
        Ok((session_id, guest_id, host_id))
    }

    /// Attaches a new guest, with a fresh random identifier, to the session of
    /// `code`.
    pub fn join_session(&mut self, code: &SessionCode, guest_outbound: OutboundTx) -> (r: Result<
        (SessionId, PeerId, PeerId),
        RegistryError,
    >)
        ensures
            registry_wf(final(self)@),
            exists|guest_id: PeerId, now: u64|
                (r, final(self)@) == #[trigger] join_outcome(
                    old(self)@,
                    code@,
                    guest_outbound,
                    guest_id,
                    now,
                ),
            r matches Ok((id, guest_id, host_id)) ==> is_v4_uuid(guest_id.0),
    {
        let guest_id = PeerId::new();
        let now = self.clock.now_ms();
        self.join_session_at(code, guest_outbound, guest_id, now)
    }

    /// The outbound queue of the peer other than `from` in the session, after
    /// checking that `message` can be encoded.
    pub fn forward_to_other(&self, session_id: SessionId, from: PeerId, message: &Message) -> (r:
        Result<OutboundTx, RegistryError>)
        ensures
            !message_is_valid(*message) ==> (r matches Err(e) && e is Encode),
            message_is_valid(*message) ==> r == (if self@.contains_key(session_id)
                && other_peer_of(self@[session_id], from) is Some {
                Ok::<OutboundTx, RegistryError>(
                    other_peer_of(self@[session_id], from).unwrap().outbound,
                )
            } else {
                Err::<OutboundTx, RegistryError>(RegistryError::NotFound)
            }),
    {
        proof {
            use_type_invariant(self);
        }
        if let Err(e) = validate_message(message) {
            return Err(RegistryError::Encode(e.to_string()));
        }
        let i = match self.index_of_id(session_id) {
            Some(i) => i,
            None => {
                return Err(RegistryError::NotFound);
            },
        };
        proof {
            lemma_view_at(self.sessions@, i as int);
        }
        match self.sessions[i].other_peer(from) {
            Some(p) => Ok(p.outbound),
            None => Err(RegistryError::NotFound),
        }
    }

    /// The outbound queue of `peer_id` in the session (signaling), after
    /// checking that `message` can be encoded.
    pub fn send_to_peer(&self, session_id: SessionId, peer_id: PeerId, message: &Message) -> (r:
        Result<OutboundTx, RegistryError>)
        ensures
            !message_is_valid(*message) ==> (r matches Err(e) && e is Encode),
            message_is_valid(*message) ==> r == (if self@.contains_key(session_id) && slot_of(
                self@[session_id],
                peer_id,
            ) is Some {
                Ok::<OutboundTx, RegistryError>(slot_of(self@[session_id], peer_id).unwrap().outbound)
            } else {
                Err::<OutboundTx, RegistryError>(RegistryError::NotFound)
            }),
    {
        proof {
            use_type_invariant(self);
        }
        if let Err(e) = validate_message(message) {
            return Err(RegistryError::Encode(e.to_string()));
        }
        let i = match self.index_of_id(session_id) {
            Some(i) => i,
            None => {
                return Err(RegistryError::NotFound);
            },
        };
        proof {
            lemma_view_at(self.sessions@, i as int);
        }
        let s = &self.sessions[i];
        if let Some(h) = &s.host {
            if h.peer_id == peer_id {
                return Ok(h.outbound);
            }
        }
        if let Some(g) = &s.guest {
            if g.peer_id == peer_id {
                return Ok(g.outbound);
            }
        }
        Err(RegistryError::NotFound)
    }

    /// Records activity of the session at `now`.
    pub fn touch_at(&mut self, session_id: SessionId, now: u64)
        ensures
            registry_wf(final(self)@),
            final(self)@ == touched(old(self)@, session_id, now),
    {
        proof {
            use_type_invariant(&*self);
        }
        match self.index_of_id(session_id) {
            Some(i) => {
                let mut sessions: Vec<Session> = Vec::new();
                std::mem::swap(&mut sessions, &mut self.sessions);
                let ghost s0 = sessions@;
                proof {
                    lemma_view_at(s0, i as int);
                }
                let mut session = sessions.remove(i);
                session.touch(now);
                proof {
                    assert(sessions@.insert(i as int, session) =~= s0.update(i as int, session));
                    lemma_view_update(s0, i as int, session);
                }
                sessions.insert(i, session);
                self.sessions = sessions;
            },
            None => {},
        }
        proof {
            lemma_view_wf(self.sessions@);
        }
    }

    /// Records activity of the session now.
    pub fn touch(&mut self, session_id: SessionId)
        ensures
            registry_wf(final(self)@),
            exists|now: u64| final(self)@ == #[trigger] touched(old(self)@, session_id, now),
    {
        let now = self.clock.now_ms();
        self.touch_at(session_id, now);
    }

    /// Removes a peer at time `now`, destroying the session once it is empty;
    /// returns the notification `PeerLeft` owed to the other peer, with its
    /// outbound queue.
    #[verifier::spinoff_prover]
    pub fn detach_peer_at(&mut self, session_id: SessionId, peer_id: PeerId, now: u64) -> (r:
        Option<(OutboundTx, Message)>)
        ensures
            registry_wf(final(self)@),
            final(self)@ == after_detach(old(self)@, session_id, peer_id, now),
            r == (if old(self)@.contains_key(session_id) && other_peer_of(
                old(self)@[session_id],
                peer_id,
            ) is Some {
                Some(
                    (
                        other_peer_of(old(self)@[session_id], peer_id).unwrap().outbound,
                        Message::PeerLeft { peer_id },
                    ),
                )
            } else {
                None
            }),
    {
        proof {
            use_type_invariant(&*self);
            lemma_view_wf(self.sessions@);
        }
        let i = match self.index_of_id(session_id) {
            Some(i) => i,
            None => {
                return None;
            },
        };
        let mut sessions: Vec<Session> = Vec::new();
        std::mem::swap(&mut sessions, &mut self.sessions);
        let ghost s0 = sessions@;
        proof {
            lemma_view_at(s0, i as int);
        }
        let mut session = sessions.remove(i);
        let other = match session.other_peer(peer_id) {
            Some(p) => Some((p.outbound, Message::PeerLeft { peer_id })),
            None => None,
        };
        session.remove_peer(peer_id, now);
        if session.peer_count() == 0 {
            proof {
                lemma_view_remove(s0, i as int);
            }
        } else {
            proof {
                assert(sessions@.insert(i as int, session) =~= s0.update(i as int, session));
                lemma_view_update(s0, i as int, session);
            }
            sessions.insert(i, session);
        }
        self.sessions = sessions;
        proof {
            lemma_view_wf(self.sessions@);
        }
        other
    }

    /// Removes a peer now, destroying the session once it is empty; returns
    /// the notification `PeerLeft` owed to the other peer, with its outbound
    /// queue.
    pub fn detach_peer(&mut self, session_id: SessionId, peer_id: PeerId) -> (r: Option<
        (OutboundTx, Message),
    >)
        ensures
            registry_wf(final(self)@),
            exists|now: u64|
                final(self)@ == #[trigger] after_detach(old(self)@, session_id, peer_id, now),
            r == (if old(self)@.contains_key(session_id) && other_peer_of(
                old(self)@[session_id],
                peer_id,
            ) is Some {
                Some(
                    (
                        other_peer_of(old(self)@[session_id], peer_id).unwrap().outbound,
                        Message::PeerLeft { peer_id },
                    ),
                )
            } else {
                None
            }),
    {
        let now = self.clock.now_ms();
        self.detach_peer_at(session_id, peer_id, now)
    }

    /// Removes the sessions inactive for longer than `ttl_ms` at time `now`;
    /// returns the outbound queues of their peers, owed `SessionExpired`.
    #[verifier::spinoff_prover]
    #[verifier::rlimit(40)]
    pub fn expire_stale_at(&mut self, now: u64, ttl_ms: u64) -> (r: Vec<OutboundTx>)
        ensures
            registry_wf(final(self)@),
            final(self)@ == fresh_sessions(old(self)@, now, ttl_ms),
            forall|o: OutboundTx| r@.contains(o) <==> is_stale_outbound(old(self)@, now, ttl_ms, o),
            forall|id: SessionId|
                #[trigger] old(self)@.contains_key(id) && is_stale(old(self)@[id], now, ttl_ms) ==> (
                old(self)@[id].host matches Some(h) ==> r@.contains(h.outbound)) && (
                old(self)@[id].guest matches Some(g) ==> r@.contains(g.outbound)),
    {
        proof {
            use_type_invariant(&*self);
        }
        let mut pending: Vec<Session> = Vec::new();
        std::mem::swap(&mut pending, &mut self.sessions);
        let ghost s0 = pending@;
        let mut kept: Vec<Session> = Vec::new();
        let mut notify: Vec<OutboundTx> = Vec::new();
        let ghost mut k: int = 0;
        proof {
            assert(pending@ =~= s0.skip(0));
            assert(s0.take(0) =~= Seq::<Session>::empty());
            assert(seq_view(kept@) =~= fresh_sessions(seq_view(s0.take(0)), now, ttl_ms));
        }
        while pending.len() > 0
            invariant
                sessions_wf(s0),
                0 <= k <= s0.len(),
                pending@ == s0.skip(k),
                sessions_wf(kept@),
                seq_view(kept@) == fresh_sessions(seq_view(s0.take(k)), now, ttl_ms),
                forall|o: OutboundTx|
                    notify@.contains(o) <==> is_stale_outbound(
                        seq_view(s0.take(k)),
                        now,
                        ttl_ms,
                        o,
                    ),
            decreases pending@.len(),
        {
            let session = pending.remove(0);
            let ghost m = seq_view(s0.take(k));
            let ghost m2 = seq_view(s0.take(k + 1));
            proof {
                assert(session == s0[k]);
                lemma_take_step(s0, k);
                assert(pending@ =~= s0.skip(k + 1));
            }
            let stale = now >= session.last_activity && now - session.last_activity > ttl_ms;
            let ghost old_notify = notify@;
            if stale {
                let ghost mut extra: Seq<OutboundTx> = Seq::empty();
                if let Some(h) = &session.host {
                    notify.push(h.outbound);
                    proof {
                        extra = extra.push(h.outbound);
                    }
                }
                if let Some(g) = &session.guest {
                    notify.push(g.outbound);
                    proof {
                        extra = extra.push(g.outbound);
                    }
                }
                proof {
                    assert(notify@ =~= old_notify + extra);
                    assert forall|o: OutboundTx|
                        notify@.contains(o) <==> (old_notify.contains(o) || extra.contains(o)) by {
                        if notify@.contains(o) {
                            let j = choose|j: int| 0 <= j < notify@.len() && notify@[j] == o;
                            if j >= old_notify.len() {
                                assert(extra[j - old_notify.len()] == o);
                            }
                        }
                        if old_notify.contains(o) {
                            let j = choose|j: int| 0 <= j < old_notify.len() && old_notify[j] == o;
                            assert(notify@[j] == o);
                        }
                        if extra.contains(o) {
                            let j = choose|j: int| 0 <= j < extra.len() && extra[j] == o;
                            assert(notify@[old_notify.len() + j] == o);
                        }
                    }
                    assert forall|o: OutboundTx|
                        extra.contains(o) <==> ((session.host matches Some(h) && h.outbound == o)
                            || (session.guest matches Some(g) && g.outbound == o)) by {
                        if session.host matches Some(h) && h.outbound == o {
                            assert(extra[0] == o);
                        }
                        if session.guest matches Some(g) && g.outbound == o {
                            assert(extra[extra.len() - 1] == o);
                        }
                    }
                    assert(fresh_sessions(m2, now, ttl_ms) =~= fresh_sessions(m, now, ttl_ms));
                    assert forall|o: OutboundTx|
                        notify@.contains(o) <==> is_stale_outbound(m2, now, ttl_ms, o) by {
                        if notify@.contains(o) {
                            if old_notify.contains(o) {
                                let id = choose|id: SessionId|
                                    #![trigger m[id]]
                                    m.contains_key(id) && is_stale(m[id], now, ttl_ms) && ((
                                    m[id].host matches Some(h) && h.outbound == o) || (
                                    m[id].guest matches Some(g) && g.outbound == o));
                                assert(m2[id] == m[id]);
                            } else {
                                assert(extra.contains(o));
                                assert(m2.contains_key(session.id));
                                assert(m2[session.id] == session@);
                                assert(is_stale(m2[session.id], now, ttl_ms));
                                assert((m2[session.id].host matches Some(h) && h.outbound == o) || (
                                m2[session.id].guest matches Some(g) && g.outbound == o));
                            }
                        }
                        if is_stale_outbound(m2, now, ttl_ms, o) {
                            let id = choose|id: SessionId|
                                #![trigger m2[id]]
                                m2.contains_key(id) && is_stale(m2[id], now, ttl_ms) && ((
                                m2[id].host matches Some(h) && h.outbound == o) || (
                                m2[id].guest matches Some(g) && g.outbound == o));
                            if id == session.id {
                                assert(m2[id] == session@);
                                assert(extra.contains(o));
                            } else {
                                assert(m[id] == m2[id]);
                                assert(is_stale_outbound(m, now, ttl_ms, o));
                                assert(old_notify.contains(o));
                            }
                        }
                    }
                }
            } else {
                proof {
                    let f = fresh_sessions(m, now, ttl_ms);
                    assert forall|i: int| 0 <= i < kept@.len() implies #[trigger] kept@[i].id
                        != session.id && kept@[i].code@ != session.code@ by {
                        lemma_view_at(kept@, i);
                        assert(f.contains_key(kept@[i].id));
                        assert(m.contains_key(kept@[i].id));
                        assert(code_in_use(m, kept@[i].code@));
                    }
                    lemma_view_push(kept@, session);
                    assert(fresh_sessions(m2, now, ttl_ms) =~= fresh_sessions(m, now, ttl_ms).insert(
                        session.id,
                        session@,
                    ));
                    assert forall|o: OutboundTx|
                        notify@.contains(o) <==> is_stale_outbound(m2, now, ttl_ms, o) by {
                        if is_stale_outbound(m2, now, ttl_ms, o) {
                            let id = choose|id: SessionId|
                                #![trigger m2[id]]
                                m2.contains_key(id) && is_stale(m2[id], now, ttl_ms) && ((
                                m2[id].host matches Some(h) && h.outbound == o) || (
                                m2[id].guest matches Some(g) && g.outbound == o));
                            assert(m[id] == m2[id]);
                        }
                        if is_stale_outbound(m, now, ttl_ms, o) {
                            let id = choose|id: SessionId|
                                #![trigger m[id]]
                                m.contains_key(id) && is_stale(m[id], now, ttl_ms) && ((
                                m[id].host matches Some(h) && h.outbound == o) || (
                                m[id].guest matches Some(g) && g.outbound == o));
                            assert(m2[id] == m[id]);
                        }
                    }
                }
                kept.push(session);
            }
            proof {
                k = k + 1;
            }
        }
        proof {
            assert(s0.take(k) =~= s0);
        }
        self.sessions = kept;
        proof {
            lemma_view_wf(self.sessions@);
        }
        notify
    }

    /// Removes the sessions inactive for longer than `ttl_ms` now; returns the
    /// outbound queues of their peers, owed `SessionExpired`.
    pub fn expire_stale(&mut self, ttl_ms: u64) -> (r: Vec<OutboundTx>)
        ensures
            registry_wf(final(self)@),
            exists|now: u64|
                final(self)@ == #[trigger] fresh_sessions(old(self)@, now, ttl_ms) && (forall|
                    o: OutboundTx,
                | r@.contains(o) <==> is_stale_outbound(old(self)@, now, ttl_ms, o)) && (forall|
                    id: SessionId,
                |
                    #[trigger] old(self)@.contains_key(id) && is_stale(old(self)@[id], now, ttl_ms)
                        ==> (old(self)@[id].host matches Some(h) ==> r@.contains(h.outbound)) && (
                    old(self)@[id].guest matches Some(g) ==> r@.contains(g.outbound))),
    {
        let now = self.clock.now_ms();
        self.expire_stale_at(now, ttl_ms)
    }

}

fn index_of_id_in(sessions: &Vec<Session>, id: SessionId) -> (r: Option<usize>)
    ensures
        match r {
            Some(i) => i < sessions@.len() && sessions@[i as int].id == id,
            None => forall|j: int| 0 <= j < sessions@.len() ==> #[trigger] sessions@[j].id != id,
        },
{
    let n = sessions.len();
    let mut i: usize = 0;
    while i < n
        invariant
            n == sessions@.len(),
            i <= n,
            forall|j: int| 0 <= j < i ==> #[trigger] sessions@[j].id != id,
        decreases n - i,
    {
        if sessions[i].id == id {
            return Some(i);
        }
        i = i + 1;
    }
    None
}

/// A guest that joins with the code of a session just created finds it: the
/// join succeeds, with the host as the other peer.
pub proof fn lemma_join_after_create(
    m: RegistryModel,
    id: SessionId,
    code: Seq<char>,
    host_id: PeerId,
    host_outbound: OutboundTx,
    created_at: u64,
    guest_outbound: OutboundTx,
    guest_id: PeerId,
    now: u64,
)
    requires
        registry_wf(m.insert(id, hosted_session(id, code, host_id, host_outbound, created_at))),
    ensures
        ({
            let m1 = m.insert(id, hosted_session(id, code, host_id, host_outbound, created_at));
            join_outcome(m1, code, guest_outbound, guest_id, now).0 == Ok::<
                (SessionId, PeerId, PeerId),
                RegistryError,
            >((id, guest_id, host_id))
        }),
{
    let m1 = m.insert(id, hosted_session(id, code, host_id, host_outbound, created_at));
    assert(m1.contains_key(id) && m1[id].code == code);
    assert(code_in_use(m1, code));
    let found = session_with_code(m1, code);
    assert(m1[found] == m1[found] && m1[id] == m1[id]);
    assert(found == id);
}

/// Once a guest has joined a session, a second join with its code is refused
/// as `SessionFull`, and the registry stays as it was.
pub proof fn lemma_second_guest_rejected(
    m: RegistryModel,
    code: Seq<char>,
    outbound: OutboundTx,
    guest_id: PeerId,
    now: u64,
    outbound2: OutboundTx,
    guest_id2: PeerId,
    now2: u64,
)
    requires
        registry_wf(m),
        join_outcome(m, code, outbound, guest_id, now).0 is Ok,
    ensures
        ({
            let m2 = join_outcome(m, code, outbound, guest_id, now).1;
            join_outcome(m2, code, outbound2, guest_id2, now2) == (
                Err::<(SessionId, PeerId, PeerId), RegistryError>(RegistryError::SessionFull),
                m2,
            )
        }),
{
    let id = session_with_code(m, code);
    let m2 = join_outcome(m, code, outbound, guest_id, now).1;
    assert(m2.contains_key(id) && m2[id].code == code);
    assert(code_in_use(m2, code));
    let found = session_with_code(m2, code);
    assert(m2[found] == m2[found] && m2[id] == m2[id]);
    assert(m[found] == m[found] && m[id] == m[id]);
    assert(found == id);
}

/// When a peer leaves a session: the other sessions stay as they were; the
/// leaving peer holds no slot afterwards; a peer of the session with another
/// identifier keeps its slot, and keeps the session alive; a session left with
/// no peer is destroyed.
pub proof fn lemma_detach_effect(m: RegistryModel, id: SessionId, peer_id: PeerId, now: u64)
    requires
        m.contains_key(id),
    ensures
        ({
            let m1 = after_detach(m, id, peer_id, now);
            &&& forall|id2: SessionId|
                id2 != id ==> (#[trigger] m1.contains_key(id2) == m.contains_key(id2) && (
                m.contains_key(id2) ==> m1[id2] == m[id2]))
            &&& m1.contains_key(id) ==> slot_of(m1[id], peer_id) is None && m1[id].code == m[id].code
            &&& (m[id].host matches Some(h) && h.peer_id != peer_id) ==> m1.contains_key(id)
                && m1[id].host == m[id].host
            &&& (m[id].guest matches Some(g) && g.peer_id != peer_id) ==> m1.contains_key(id)
                && m1[id].guest == m[id].guest
            &&& (m[id].host is None || m[id].host.unwrap().peer_id == peer_id) && (m[id].guest is None
                || m[id].guest.unwrap().peer_id == peer_id) ==> !m1.contains_key(id)
        }),
{
}

} // verus!
