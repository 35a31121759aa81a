use vstd::prelude::*;

use crate::error::{LostLoveError, Result};
use crate::handshake::{Handshake, HandshakeState};
use crate::keys::elapsed_ms;
use crate::packet::{decode, well_formed, Packet, PacketType, HEADER_SIZE};
use crate::session::{uuid_v4_text, PeerAddr, Session, SessionId, SessionStats};

verus! {

/// What the data loop does after one received packet.
pub enum DataAction {
    /// Send this packet back.
    Reply(Packet),
    /// The peer asked to disconnect: end the connection gracefully.
    Close,
    /// Nothing to send; read the next packet.
    Skip,
}

/// One client connection: its session, its server-side handshake and its
/// outgoing sequence counter.
pub struct Connection {
    session: Session,
    handshake: Handshake,
    sequence_number: u64,
}

impl Connection {
    pub closed spec fn session_view(&self) -> Session {
        self.session
    }

    pub closed spec fn handshake_view(&self) -> Handshake {
        self.handshake
    }

    pub closed spec fn sequence(&self) -> u64 {
        self.sequence_number
    }

    pub open spec fn id_view(&self) -> Seq<char> {
        self.session_view().id_view()
    }

    /// A new connection: fresh session, server handshake in `Init` with
    /// nothing stored, sequence counter at zero.
    pub open spec fn is_fresh(&self, id: Seq<char>, peer: PeerAddr, created_at: u64, now: u64) -> bool {
        &&& self.session_view().is_fresh(id, peer, created_at, now)
        &&& !self.handshake_view().client_side()
        &&& self.handshake_view().current_state() == HandshakeState::Init
        &&& self.handshake_view().stored_client_random() is None
        &&& self.handshake_view().stored_server_random() is None
        &&& self.handshake_view().stored_session_id() is None
        &&& self.sequence() == 0
    }

    /// A connection with a fresh random session id; `created_at` is
    /// wall-clock and `now` monotonic time, in milliseconds.
    pub fn new(peer_addr: PeerAddr, created_at: u64, now: u64) -> (r: Connection)
        ensures
            r.is_fresh(r.id_view(), peer_addr, created_at, now),
            uuid_v4_text(r.id_view()),
    {
        Connection::with_id(SessionId::new(), peer_addr, created_at, now)
    }

    /// A connection whose session has the given id.
    pub fn with_id(id: SessionId, peer_addr: PeerAddr, created_at: u64, now: u64) -> (r: Connection)
        ensures
            r.is_fresh(id@, peer_addr, created_at, now),
    {
        Connection {
            session: Session::with_id(id, peer_addr, created_at, now),
            handshake: Handshake::new_server(),
            sequence_number: 0,
        }
    }

    pub fn session(&self) -> (r: &Session)
        ensures
            *r == self.session_view(),
    {
        &self.session
    }

    /// The session, for updating.
    pub fn session_mut(&mut self) -> (r: &mut Session)
        ensures
            *r == old(self).session_view(),
            final(self).session_view() == *final(r),
            final(self).handshake_view() == old(self).handshake_view(),
            final(self).sequence() == old(self).sequence(),
    {
        &mut self.session
    }

    /// The next sequence number: the counter's value, which then goes up by one.
    pub fn next_sequence(&mut self) -> (r: u64)
        requires
            old(self).sequence() < u64::MAX,
        ensures
            r == old(self).sequence(),
            final(self).sequence() == old(self).sequence() + 1,
            final(self).session_view() == old(self).session_view(),
            final(self).handshake_view() == old(self).handshake_view(),
    {
        let r = self.sequence_number;
        self.sequence_number = self.sequence_number + 1;
        r
    }

    pub fn handshake(&self) -> (r: &Handshake)
        ensures
            *r == self.handshake_view(),
    {
        &self.handshake
    }

    /// The handshake, for driving it.
    pub fn handshake_mut(&mut self) -> (r: &mut Handshake)
        ensures
            *r == old(self).handshake_view(),
            final(self).handshake_view() == *final(r),
            final(self).session_view() == old(self).session_view(),
            final(self).sequence() == old(self).sequence(),
    {
        &mut self.handshake
    }

    pub fn is_handshake_completed(&self) -> (r: bool)
        ensures
            r == (self.handshake_view().current_state() == HandshakeState::Completed),
    {
        self.handshake.is_completed()
    }

    /// Records activity at monotonic time `now`.
    pub fn update_activity(&mut self, now: u64)
        ensures
            final(self).session_view().progressed_from(old(self).session_view()),
            final(self).session_view().last_activity() == if now > old(
                self,
            ).session_view().last_activity() {
                now
            } else {
                old(self).session_view().last_activity()
            },
            final(self).session_view().counters() == old(self).session_view().counters(),
            final(self).session_view().current_state() == old(self).session_view().current_state(),
            final(self).handshake_view() == old(self).handshake_view(),
            final(self).sequence() == old(self).sequence(),
    {
        self.session.update_activity(now);
    }

    /// Handles one packet read by the data loop, at monotonic time `now`.
    ///
    /// Bytes that do not decode count as an error and are skipped. A decoded
    /// packet counts as received and as activity; a data packet is answered
    /// with an empty acknowledgement and a keep-alive with an empty
    /// keep-alive, both stamped `timestamp` and counted as sent; a disconnect
    /// closes; anything else is skipped.
    pub fn handle_data_packet(&mut self, bytes: &[u8], now: u64, timestamp: u64) -> (r: DataAction)
        ensures
            final(self).session_view().progressed_from(old(self).session_view()),
            final(self).handshake_view() == old(self).handshake_view(),
            final(self).sequence() == old(self).sequence(),
            final(self).session_view().current_state() == old(self).session_view().current_state(),
            decode(bytes@) is Err ==> {
                &&& r is Skip
                &&& final(self).session_view().counters() == old(
                    self,
                ).session_view().counters().after_error()
                &&& final(self).session_view().last_activity() == old(
                    self,
                ).session_view().last_activity()
            },
            decode(bytes@) is Ok ==> ({
                let (h, payload) = decode(bytes@)->Ok_0;
                let received = old(self).session_view().counters().after_received(
                    (HEADER_SIZE + payload.len()) as usize,
                );
                &&& final(self).session_view().last_activity() == if now > old(
                    self,
                ).session_view().last_activity() {
                    now
                } else {
                    old(self).session_view().last_activity()
                }
                &&& (h.packet_type == PacketType::Data || h.packet_type == PacketType::KeepAlive)
                    ==> {
                    &&& r is Reply
                    &&& well_formed(r->Reply_0.header, r->Reply_0.payload@)
                    &&& r->Reply_0.header.packet_type == if h.packet_type == PacketType::Data {
                        PacketType::Ack
                    } else {
                        PacketType::KeepAlive
                    }
                    &&& r->Reply_0.header.stream_id == 0
                    &&& r->Reply_0.header.sequence_number == 0
                    &&& r->Reply_0.header.timestamp == timestamp
                    &&& r->Reply_0.payload@.len() == 0
                    &&& final(self).session_view().counters() == received.after_sent(HEADER_SIZE)
                }
                &&& h.packet_type == PacketType::Disconnect ==> r is Close
                    && final(self).session_view().counters() == received
                &&& (h.packet_type == PacketType::Ack || h.packet_type == PacketType::HandshakeInit
                    || h.packet_type == PacketType::HandshakeResponse) ==> r is Skip
                    && final(self).session_view().counters() == received
            }),
    {
        let packet = match Packet::deserialize(bytes) {
            Ok(p) => p,
            Err(_) => {
                self.session.record_error();
                return DataAction::Skip;
            },
        };
        let received_len = bytes.len();
        assert(packet.payload@.len() + HEADER_SIZE == received_len);
        self.session.record_packet_received(packet.size());
        self.session.update_activity(now);
        match packet.header.packet_type {
            PacketType::Data => {
                let ack = Packet::new_with_metadata_at(PacketType::Ack, 0, 0, timestamp, Vec::new());
                self.session.record_packet_sent(ack.size());
                DataAction::Reply(ack)
            },
            PacketType::KeepAlive => {
                let response = Packet::new_with_metadata_at(
                    PacketType::KeepAlive,
                    0,
                    0,
                    timestamp,
                    Vec::new(),
                );
                self.session.record_packet_sent(response.size());
                DataAction::Reply(response)
            },
            PacketType::Disconnect => DataAction::Close,
            _ => DataAction::Skip,
        }
    }
}

/// No two connections share a session id.
pub open spec fn unique_ids(s: Seq<Connection>) -> bool {
    forall|i: int, j: int| 0 <= i < s.len() && 0 <= j < s.len() && i != j ==> s[i].id_view() != s[j].id_view()
}

/// The connections of `s` that have seen activity within `timeout`
/// milliseconds of `now`, in their order.
pub open spec fn live_connections(s: Seq<Connection>, timeout: u64, now: u64) -> Seq<Connection>
    decreases s.len(),
{
    if s.len() == 0 {
        Seq::empty()
    } else {
        let rest = live_connections(s.subrange(1, s.len() as int), timeout, now);
        if elapsed_ms(s[0].session_view().last_activity(), now) > timeout {
            rest
        } else {
            seq![s[0]] + rest
        }
    }
}

/// Sum of one counter over all sessions.
pub open spec fn counter_sum(s: Seq<Connection>, f: spec_fn(SessionStats) -> u64) -> nat
    decreases s.len(),
{
    if s.len() == 0 {
        0
    } else {
        counter_sum(s.drop_last(), f) + f(s.last().session_view().counters()) as nat
    }
}

/// `x`, or `u64::MAX` when it does not fit.
pub open spec fn capped(x: nat) -> u64 {
    if x > u64::MAX {
        u64::MAX
    } else {
        x as u64
    }
}

proof fn lemma_live_subset(s: Seq<Connection>, timeout: u64, now: u64)
    ensures
        forall|k: int| 0 <= k < live_connections(s, timeout, now).len() ==> s.contains(
            #[trigger] live_connections(s, timeout, now)[k],
        ),
        live_connections(s, timeout, now).len() <= s.len(),
    decreases s.len(),
{
    if s.len() > 0 {
        let tail = s.subrange(1, s.len() as int);
        lemma_live_subset(tail, timeout, now);
        let rest = live_connections(tail, timeout, now);
        assert forall|k: int| 0 <= k < rest.len() implies s.contains(#[trigger] rest[k]) by {
            let j = choose|j: int| 0 <= j < tail.len() && tail[j] == rest[k];
            assert(s[j + 1] == rest[k]);
        }
        if elapsed_ms(s[0].session_view().last_activity(), now) <= timeout {
            let l = seq![s[0]] + rest;
            assert forall|k: int| 0 <= k < l.len() implies s.contains(#[trigger] l[k]) by {
                if k == 0 {
                    assert(s[0] == l[0]);
                } else {
                    assert(l[k] == rest[k - 1]);
                }
            }
        }
    }
}

proof fn lemma_live_unique(s: Seq<Connection>, timeout: u64, now: u64)
    requires
        unique_ids(s),
    ensures
        unique_ids(live_connections(s, timeout, now)),
    decreases s.len(),
{
    if s.len() > 0 {
        let tail = s.subrange(1, s.len() as int);
        assert(unique_ids(tail)) by {
            assert forall|i: int, j: int|
                0 <= i < tail.len() && 0 <= j < tail.len() && i != j implies tail[i].id_view()
                != tail[j].id_view() by {
                assert(tail[i] == s[i + 1] && tail[j] == s[j + 1]);
            }
        }
        lemma_live_unique(tail, timeout, now);
        lemma_live_subset(tail, timeout, now);
        let rest = live_connections(tail, timeout, now);
        if elapsed_ms(s[0].session_view().last_activity(), now) <= timeout {
            let l = seq![s[0]] + rest;
            assert forall|i: int, j: int|
                0 <= i < l.len() && 0 <= j < l.len() && i != j implies l[i].id_view()
                != l[j].id_view() by {
                if i == 0 {
                    assert(tail.contains(rest[j - 1]));
                    let m = choose|m: int| 0 <= m < tail.len() && tail[m] == rest[j - 1];
                    assert(s[m + 1] == rest[j - 1]);
                } else if j == 0 {
                    assert(tail.contains(rest[i - 1]));
                    let m = choose|m: int| 0 <= m < tail.len() && tail[m] == rest[i - 1];
                    assert(s[m + 1] == rest[i - 1]);
                } else {
                    assert(l[i] == rest[i - 1] && l[j] == rest[j - 1]);
                }
            }
        }
    }
}

/// Replacing one connection by one with the same session id keeps the ids unique.
pub proof fn lemma_update_keeps_unique(s: Seq<Connection>, i: int, c: Connection)
    requires
        unique_ids(s),
        0 <= i < s.len(),
        c.id_view() == s[i].id_view(),
    ensures
        unique_ids(s.update(i, c)),
{
}

/// Registry statistics: counts of connections and sums of the session counters.
#[derive(Debug, Clone, Copy, PartialEq, Eq, Structural)]
pub struct ConnectionManagerStats {
    pub active_connections: usize,
    pub total_connections: u64,
    pub total_packets_sent: u64,
    pub total_packets_received: u64,
    pub total_bytes_sent: u64,
    pub total_bytes_received: u64,
    pub total_errors: u64,
}

/// Registry of the live connections, keyed by session id, with a bound on
/// how many may be live at once.
pub struct ConnectionManager {
    connections: Vec<Connection>,
    max_connections: usize,
    active_count: usize,
    total_connections: u64,
}

impl ConnectionManager {
    pub closed spec fn connections(&self) -> Seq<Connection> {
        self.connections@
    }

    pub closed spec fn max(&self) -> usize {
        self.max_connections
    }

    pub closed spec fn active(&self) -> usize {
        self.active_count
    }

    /// Connections created over the registry's lifetime (saturating).
    pub closed spec fn total(&self) -> u64 {
        self.total_connections
    }

    /// The live count is the number of entries, within the bound, and the
    /// session ids are unique.
    pub open spec fn wf(&self) -> bool {
        &&& self.active() == self.connections().len()
        &&& self.active() <= self.max()
        &&& unique_ids(self.connections())
    }

    pub open spec fn has_session(&self, id: Seq<char>) -> bool {
        exists|i: int| 0 <= i < self.connections().len() && #[trigger] self.connections()[i].id_view() == id
    }

    /// Position of the connection with session id `id`, when there is one.
    pub open spec fn index_of(&self, id: Seq<char>) -> int {
        choose|i: int| 0 <= i < self.connections().len() && #[trigger] self.connections()[i].id_view() == id
    }

    /// An empty registry for at most `max_connections` live connections.
    pub fn new(max_connections: usize) -> (r: ConnectionManager)
        ensures
            r.wf(),
            r.connections().len() == 0,
            r.max() == max_connections,
            r.total() == 0,
    {
        ConnectionManager {
            connections: Vec::new(),
            max_connections,
            active_count: 0,
            total_connections: 0,
        }
    }

    /// Index of the connection with session id `id`, if any.
    pub fn find_connection(&self, id: &SessionId) -> (r: Option<usize>)
        ensures
            match r {
                Some(i) => i < self.connections().len() && self.connections()[i as int].id_view()
                    == id@ && (unique_ids(self.connections()) ==> i == self.index_of(id@)),
                None => !self.has_session(id@),
            },
    {
        let mut i: usize = 0;
        while i < self.connections.len()
            invariant
                i <= self.connections@.len(),
                forall|j: int| 0 <= j < i ==> self.connections@[j].id_view() != id@,
            decreases self.connections@.len() - i,
        {
            if self.connections[i].session().id().same_as(id) {
                proof {
                    assert(self.connections()[i as int].id_view() == id@);
                    assert(self.has_session(id@));
                }
                return Some(i);
            }
            i = i + 1;
        }
        None
    }

    /// Adds a connection for `peer_addr` under a fresh random session id,
    /// unless the registry is full.
    pub fn create_connection(&mut self, peer_addr: PeerAddr, created_at: u64, now: u64) -> (r:
        Result<SessionId>)
        requires
            old(self).wf(),
        ensures
            final(self).wf(),
            final(self).max() == old(self).max(),
            old(self).active() >= old(self).max() ==> r == Err::<SessionId, LostLoveError>(
                LostLoveError::TooManyConnections,
            ) && *final(self) == *old(self),
            r is Err ==> *final(self) == *old(self),
            old(self).active() < old(self).max() ==> r is Ok || r->Err_0 is Connection,
            old(self).active() < old(self).max() && old(self).connections().len() == 0 ==> r is Ok,
            r is Ok ==> {
                &&& uuid_v4_text(r->Ok_0@)
                &&& !old(self).has_session(r->Ok_0@)
                &&& final(self).connections().len() == old(self).connections().len() + 1
                &&& final(self).connections().drop_last() == old(self).connections()
                &&& final(self).connections().last().is_fresh(r->Ok_0@, peer_addr, created_at, now)
                &&& final(self).total() == if old(self).total() < u64::MAX {
                    old(self).total() + 1
                } else {
                    old(self).total() as int
                }
            },
    {
        if self.active_count >= self.max_connections {
            return Err(LostLoveError::TooManyConnections);
        }
        self.create_connection_with_id(SessionId::new(), peer_addr, created_at, now)
    }

    /// Adds a connection under session id `id`. Fails with
    /// `TooManyConnections` when the registry is full and with a connection
    /// error when `id` is already registered; nothing changes then.
    pub fn create_connection_with_id(
        &mut self,
        id: SessionId,
        peer_addr: PeerAddr,
        created_at: u64,
        now: u64,
    ) -> (r: Result<SessionId>)
        requires
            old(self).wf(),
        ensures
            final(self).wf(),
            final(self).max() == old(self).max(),
            old(self).active() >= old(self).max() ==> r == Err::<SessionId, LostLoveError>(
                LostLoveError::TooManyConnections,
            ),
            old(self).active() < old(self).max() && old(self).has_session(id@) ==> r is Err
                && r->Err_0 is Connection,
            r is Ok <==> old(self).active() < old(self).max() && !old(self).has_session(id@),
            r is Err ==> *final(self) == *old(self),
            r is Ok ==> {
                &&& r->Ok_0@ == id@
                &&& final(self).connections().len() == old(self).connections().len() + 1
                &&& final(self).connections().drop_last() == old(self).connections()
                &&& final(self).connections().last().is_fresh(id@, peer_addr, created_at, now)
                &&& final(self).total() == if old(self).total() < u64::MAX {
                    old(self).total() + 1
                } else {
                    old(self).total() as int
                }
            },
    {
        if self.active_count >= self.max_connections {
            return Err(LostLoveError::TooManyConnections);
        }
        if self.find_connection(&id).is_some() {
            return Err(LostLoveError::Connection("Session id already registered".to_string()));
        }
        let session_id = id.duplicate();
        let connection = Connection::with_id(id, peer_addr, created_at, now);
        let ghost before = self.connections@;
        self.connections.push(connection);
        self.active_count = self.active_count + 1;
        self.total_connections = self.total_connections.saturating_add(1);
        proof {
            assert(self.connections@.drop_last() =~= before);
            assert forall|i: int, j: int|
                0 <= i < self.connections@.len() && 0 <= j < self.connections@.len() && i
                    != j implies self.connections@[i].id_view() != self.connections@[j].id_view() by {
                if i == before.len() {
                    assert(self.connections@[j] == before[j]);
                } else if j == before.len() {
                    assert(self.connections@[i] == before[i]);
                } else {
                    assert(self.connections@[i] == before[i] && self.connections@[j] == before[j]);
                }
            }
        }
        Ok(session_id)
    }

    /// The connection with session id `id`, if any.
    pub fn get_connection(&self, id: &SessionId) -> (r: Option<&Connection>)
        ensures
            r is Some <==> self.has_session(id@),
            r is Some ==> r->Some_0.id_view() == id@ && self.connections().contains(*r->Some_0),
    {
        match self.find_connection(id) {
            Some(i) => Some(&self.connections[i]),
            None => None,
        }
    }

    /// The connection at index `i`.
    pub fn connection_at(&self, i: usize) -> (r: &Connection)
        requires
            i < self.connections().len(),
        ensures
            *r == self.connections()[i as int],
    {
        &self.connections[i]
    }

    /// The connection at index `i`, for updating in place.
    pub fn connection_at_mut(&mut self, i: usize) -> (r: &mut Connection)
        requires
            i < old(self).connections().len(),
        ensures
            *r == old(self).connections()[i as int],
            final(self).connections() == old(self).connections().update(i as int, *final(r)),
            final(self).max() == old(self).max(),
            final(self).active() == old(self).active(),
            final(self).total() == old(self).total(),
    {
        &mut self.connections[i]
    }

    /// Removes the connection with session id `id`; removing an absent id
    /// changes nothing.
    pub fn remove_connection(&mut self, id: &SessionId) -> (r: Option<Connection>)
        requires
            old(self).wf(),
        ensures
            final(self).wf(),
            r is Some <==> old(self).has_session(id@),
            r is None ==> *final(self) == *old(self),
            r is Some ==> exists|i: int|
                0 <= i < old(self).connections().len() && old(self).connections()[i].id_view()
                    == id@ && r->Some_0 == old(self).connections()[i] && final(self).connections()
                    == old(self).connections().remove(i),
            final(self).max() == old(self).max(),
            final(self).total() == old(self).total(),
    {
        match self.find_connection(id) {
            Some(i) => {
                let ghost before = self.connections@;
                let c = self.connections.remove(i);
                self.active_count = self.active_count - 1;
                proof {
                    assert forall|a: int, b: int|
                        0 <= a < self.connections@.len() && 0 <= b < self.connections@.len() && a
                            != b implies self.connections@[a].id_view()
                        != self.connections@[b].id_view() by {
                        let a2 = if a < i {
                            a
                        } else {
                            a + 1
                        };
                        let b2 = if b < i {
                            b
                        } else {
                            b + 1
                        };
                        assert(self.connections@[a] == before[a2]);
                        assert(self.connections@[b] == before[b2]);
                    }
                }
                Some(c)
            },
            None => None,
        }
    }

    pub fn active_count(&self) -> (r: usize)
        ensures
            r == self.active(),
    {
        self.active_count
    }

    pub fn total_count(&self) -> (r: u64)
        ensures
            r == self.total(),
    {
        self.total_connections
    }

    pub fn max_connections(&self) -> (r: usize)
        ensures
            r == self.max(),
    {
        self.max_connections
    }

    /// Removes every connection idle for more than `timeout` milliseconds
    /// at monotonic time `now`; the lifetime total is kept.
    pub fn cleanup_stale(&mut self, timeout: u64, now: u64)
        requires
            old(self).wf(),
        ensures
            final(self).wf(),
            final(self).connections() == live_connections(old(self).connections(), timeout, now),
            final(self).max() == old(self).max(),
            final(self).total() == old(self).total(),
    {
        let ghost original = self.connections@;
        let mut rest: Vec<Connection> = Vec::new();
        std::mem::swap(&mut rest, &mut self.connections);
        let mut kept: Vec<Connection> = Vec::new();
        while rest.len() > 0
            invariant
                kept@ + live_connections(rest@, timeout, now) == live_connections(
                    original,
                    timeout,
                    now,
                ),
            decreases rest@.len(),
        {
            let ghost before = rest@;
            let c = rest.remove(0);
            assert(rest@ =~= before.subrange(1, before.len() as int));
            if c.session().should_timeout(timeout, now) {
            } else {
                let ghost kept_before = kept@;
                kept.push(c);
                assert(kept@ + live_connections(rest@, timeout, now) =~= kept_before + (seq![
                    before[0],
                ] + live_connections(rest@, timeout, now)));
            }
        }
        assert(kept@ =~= kept@ + live_connections(rest@, timeout, now));
        proof {
            lemma_live_unique(original, timeout, now);
            lemma_live_subset(original, timeout, now);
        }
        self.active_count = kept.len();
        self.connections = kept;
    }

    /// The session ids of all live connections, in registry order.
    pub fn get_all_sessions(&self) -> (r: Vec<SessionId>)
        ensures
            r@.len() == self.connections().len(),
            forall|i: int| 0 <= i < r@.len() ==> #[trigger] r@[i]@ == self.connections()[i].id_view(),
    {
        let mut ids: Vec<SessionId> = Vec::new();
        let mut i: usize = 0;
        while i < self.connections.len()
            invariant
                i <= self.connections@.len(),
                ids@.len() == i,
                forall|j: int| 0 <= j < i ==> #[trigger] ids@[j]@ == self.connections@[j].id_view(),
            decreases self.connections@.len() - i,
        {
            ids.push(self.connections[i].session().id().duplicate());
            i = i + 1;
        }
        ids
    }

    /// Counts of connections and the sums of every session counter (each
    /// sum saturates at `u64::MAX`).
    pub fn get_stats(&self) -> (r: ConnectionManagerStats)
        ensures
            r.active_connections == self.active(),
            r.total_connections == self.total(),
            r.total_packets_sent == capped(
                counter_sum(self.connections(), |s: SessionStats| s.packets_sent),
            ),
            r.total_packets_received == capped(
                counter_sum(self.connections(), |s: SessionStats| s.packets_received),
            ),
            r.total_bytes_sent == capped(
                counter_sum(self.connections(), |s: SessionStats| s.bytes_sent),
            ),
            r.total_bytes_received == capped(
                counter_sum(self.connections(), |s: SessionStats| s.bytes_received),
            ),
            r.total_errors == capped(counter_sum(self.connections(), |s: SessionStats| s.errors)),
    {
        let mut total_packets_sent: u64 = 0;
        let mut total_packets_received: u64 = 0;
        let mut total_bytes_sent: u64 = 0;
        let mut total_bytes_received: u64 = 0;
        let mut total_errors: u64 = 0;
        let mut i: usize = 0;
        while i < self.connections.len()
            invariant
                i <= self.connections@.len(),
                total_packets_sent == capped(
                    counter_sum(
                        self.connections@.subrange(0, i as int),
                        |s: SessionStats| s.packets_sent,
                    ),
                ),
                total_packets_received == capped(
                    counter_sum(
                        self.connections@.subrange(0, i as int),
                        |s: SessionStats| s.packets_received,
                    ),
                ),
                total_bytes_sent == capped(
                    counter_sum(self.connections@.subrange(0, i as int), |s: SessionStats| s.bytes_sent),
                ),
                total_bytes_received == capped(
                    counter_sum(
                        self.connections@.subrange(0, i as int),
                        |s: SessionStats| s.bytes_received,
                    ),
                ),
                total_errors == capped(
                    counter_sum(self.connections@.subrange(0, i as int), |s: SessionStats| s.errors),
                ),
            decreases self.connections@.len() - i,
        {
            let stats = self.connections[i].session().stats();
            assert(self.connections@.subrange(0, i + 1).drop_last() =~= self.connections@.subrange(
                0,
                i as int,
            ));
            total_packets_sent = total_packets_sent.saturating_add(stats.packets_sent);
            total_packets_received = total_packets_received.saturating_add(stats.packets_received);
            total_bytes_sent = total_bytes_sent.saturating_add(stats.bytes_sent);
            total_bytes_received = total_bytes_received.saturating_add(stats.bytes_received);
            total_errors = total_errors.saturating_add(stats.errors);
            i = i + 1;
        }
        assert(self.connections@.subrange(0, i as int) =~= self.connections@);
        ConnectionManagerStats {
            active_connections: self.active_count,
            total_connections: self.total_connections,
            total_packets_sent,
            total_packets_received,
            total_bytes_sent,
            total_bytes_received,
            total_errors,
        }
    }
}

} // verus!
