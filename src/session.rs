use vstd::prelude::*;

use crate::keys::elapsed_ms;

verus! {

/// A lowercase hexadecimal digit.
pub open spec fn is_lower_hex(c: char) -> bool {
    (48 <= c as u32 <= 57) || (97 <= c as u32 <= 102)
}

/// The hyphenated text of a version-4 UUID: 36 characters, hyphens at 8,
/// 13, 18 and 23, lowercase hex elsewhere, version digit '4' at 14 and a
/// variant digit of 8, 9, a or b at 19.
pub open spec fn uuid_v4_text(s: Seq<char>) -> bool {
    &&& s.len() == 36
    &&& forall|i: int|
        0 <= i < 36 ==> if i == 8 || i == 13 || i == 18 || i == 23 {
            #[trigger] s[i] == '-'
        } else {
            is_lower_hex(s[i])
        }
    &&& s[14] == '4'
    &&& (s[19] == '8' || s[19] == '9' || s[19] == 'a' || s[19] == 'b')
}

/// Relies on uuid's `Uuid::new_v4`, which sets the version nibble to 4 and
/// the variant bits to 10, and on its `Display`, which writes the
/// lowercase hyphenated form.
#[verifier::external_body]
pub(crate) fn new_uuid_v4_string() -> (r: String)
    ensures
        uuid_v4_text(r@),
{
    uuid::Uuid::new_v4().to_string()
}

/// Identifier of a session: the text of a UUID.
#[derive(Debug, Clone, Eq, Hash)]
pub struct SessionId(String);

impl View for SessionId {
    type V = Seq<char>;

    closed spec fn view(&self) -> Seq<char> {
        self.0@
    }
}

impl PartialEq for SessionId {
    fn eq(&self, other: &SessionId) -> (r: bool) {
        self.0 == other.0
    }
}

impl vstd::std_specs::cmp::PartialEqSpecImpl for SessionId {
    open spec fn obeys_eq_spec() -> bool {
        true
    }

    open spec fn eq_spec(&self, other: &SessionId) -> bool {
        self@ == other@
    }
}

impl SessionId {
    /// A fresh random identifier: the text of a version-4 UUID.
    pub fn new() -> (r: SessionId)
        ensures
            uuid_v4_text(r@),
    {
        SessionId(new_uuid_v4_string())
    }

    pub fn from_string(s: String) -> (r: SessionId)
        ensures
            r@ == s@,
    {
        SessionId(s)
    }

    pub fn as_str(&self) -> (r: &str)
        ensures
            r@ == self@,
    {
        self.0.as_str()
    }

    /// A copy of this identifier.
    pub fn duplicate(&self) -> (r: SessionId)
        ensures
            r@ == self@,
    {
        SessionId(self.0.clone())
    }

    /// Whether two identifiers hold the same text.
    pub fn same_as(&self, other: &SessionId) -> (r: bool)
        ensures
            r == (self@ == other@),
    {
        self.0 == other.0
    }
}

/// Lifecycle of a session; it only moves forward through these states.
#[derive(Debug, Clone, Copy, PartialEq, Eq, Structural)]
pub enum SessionState {
    Handshaking,
    Active,
    Disconnecting,
    Closed,
}

/// Position of a state in the lifecycle order.
pub open spec fn state_rank(s: SessionState) -> nat {
    match s {
        SessionState::Handshaking => 0,
        SessionState::Active => 1,
        SessionState::Disconnecting => 2,
        SessionState::Closed => 3,
    }
}

fn rank_of(s: SessionState) -> (r: u8)
    ensures
        r as nat == state_rank(s),
{
    match s {
        SessionState::Handshaking => 0,
        SessionState::Active => 1,
        SessionState::Disconnecting => 2,
        SessionState::Closed => 3,
    }
}

/// Counters of one session.
#[derive(Debug, Clone, Copy, PartialEq, Eq, Structural)]
pub struct SessionStats {
    pub packets_sent: u64,
    pub packets_received: u64,
    pub bytes_sent: u64,
    pub bytes_received: u64,
    pub errors: u64,
}

impl SessionStats {
    /// All counters at zero.
    pub fn new() -> (r: SessionStats)
        ensures
            r == SessionStats::zero(),
    {
        SessionStats {
            packets_sent: 0,
            packets_received: 0,
            bytes_sent: 0,
            bytes_received: 0,
            errors: 0,
        }
    }

    pub open spec fn zero() -> SessionStats {
        SessionStats {
            packets_sent: 0,
            packets_received: 0,
            bytes_sent: 0,
            bytes_received: 0,
            errors: 0,
        }
    }

    /// The counters after one packet of `size` bytes is sent.
    pub open spec fn after_sent(self, size: usize) -> SessionStats {
        SessionStats {
            packets_sent: sat_add(self.packets_sent, 1),
            bytes_sent: sat_add(self.bytes_sent, size as u64),
            ..self
        }
    }

    /// The counters after one packet of `size` bytes is received.
    pub open spec fn after_received(self, size: usize) -> SessionStats {
        SessionStats {
            packets_received: sat_add(self.packets_received, 1),
            bytes_received: sat_add(self.bytes_received, size as u64),
            ..self
        }
    }

    /// The counters after one error.
    pub open spec fn after_error(self) -> SessionStats {
        SessionStats { errors: sat_add(self.errors, 1), ..self }
    }

    /// No counter of `self` is below the one of `earlier`.
    pub open spec fn dominates(&self, earlier: SessionStats) -> bool {
        &&& self.packets_sent >= earlier.packets_sent
        &&& self.packets_received >= earlier.packets_received
        &&& self.bytes_sent >= earlier.bytes_sent
        &&& self.bytes_received >= earlier.bytes_received
        &&& self.errors >= earlier.errors
    }
}

impl Default for SessionStats {
    fn default() -> (r: SessionStats)
        ensures
            r == SessionStats::zero(),
    {
        SessionStats::new()
    }
}

/// `a + b`, or `u64::MAX` when that does not fit.
pub open spec fn sat_add(a: u64, b: u64) -> u64 {
    if a + b > u64::MAX {
        u64::MAX
    } else {
        (a + b) as u64
    }
}

/// Address of a peer: an IPv4 address as a 32-bit or an IPv6 address as a
/// 128-bit big-endian number, and a port.
#[derive(Debug, Clone, Copy, PartialEq, Eq, Structural)]
pub enum PeerAddr {
    V4(u32, u16),
    V6(u128, u16),
}

/// Server-side state of one client connection. Times are milliseconds:
/// `created_at` on the wall clock, `last_activity` on a monotonic clock.
pub struct Session {
    id: SessionId,
    state: SessionState,
    stats: SessionStats,
    created_at: u64,
    last_activity: u64,
    peer_address: PeerAddr,
}

impl Session {
    pub closed spec fn id_view(&self) -> Seq<char> {
        self.id@
    }

    pub closed spec fn current_state(&self) -> SessionState {
        self.state
    }

    pub closed spec fn counters(&self) -> SessionStats {
        self.stats
    }

    pub closed spec fn created_at(&self) -> u64 {
        self.created_at
    }

    pub closed spec fn last_activity(&self) -> u64 {
        self.last_activity
    }

    pub closed spec fn peer(&self) -> PeerAddr {
        self.peer_address
    }

    /// `self` is what `earlier` can become: same identity, the state no
    /// earlier in the lifecycle, activity time and counters no lower.
    pub open spec fn progressed_from(&self, earlier: Session) -> bool {
        &&& self.id_view() == earlier.id_view()
        &&& self.peer() == earlier.peer()
        &&& self.created_at() == earlier.created_at()
        &&& state_rank(self.current_state()) >= state_rank(earlier.current_state())
        &&& self.last_activity() >= earlier.last_activity()
        &&& self.counters().dominates(earlier.counters())
    }

    /// A new session in the handshaking state with zero counters.
    pub open spec fn is_fresh(&self, id: Seq<char>, peer: PeerAddr, created_at: u64, now: u64) -> bool {
        &&& self.id_view() == id
        &&& self.peer() == peer
        &&& self.created_at() == created_at
        &&& self.last_activity() == now
        &&& self.current_state() == SessionState::Handshaking
        &&& self.counters() == SessionStats::zero()
    }

    /// A session with a fresh random identifier; `created_at` is wall-clock
    /// and `now` monotonic time.
    pub fn new(peer_address: PeerAddr, created_at: u64, now: u64) -> (r: Session)
        ensures
            r.is_fresh(r.id_view(), peer_address, created_at, now),
            uuid_v4_text(r.id_view()),
    {
        Session::with_id(SessionId::new(), peer_address, created_at, now)
    }

    /// A session with the given identifier.
    pub fn with_id(id: SessionId, peer_address: PeerAddr, created_at: u64, now: u64) -> (r: Session)
        ensures
            r.is_fresh(id@, peer_address, created_at, now),
    {
        Session {
            id,
            state: SessionState::Handshaking,
            stats: SessionStats::new(),
            created_at,
            last_activity: now,
            peer_address,
        }
    }

    pub fn id(&self) -> (r: &SessionId)
        ensures
            r@ == self.id_view(),
    {
        &self.id
    }

    pub fn peer_address(&self) -> (r: PeerAddr)
        ensures
            r == self.peer(),
    {
        self.peer_address
    }

    pub fn state(&self) -> (r: SessionState)
        ensures
            r == self.current_state(),
    {
        self.state
    }

    /// Moves to `new_state` unless that would go back in the lifecycle, in
    /// which case the state stays.
    pub fn set_state(&mut self, new_state: SessionState)
        ensures
            final(self).current_state() == if state_rank(new_state) >= state_rank(
                old(self).current_state(),
            ) {
                new_state
            } else {
                old(self).current_state()
            },
            final(self).counters() == old(self).counters(),
            final(self).last_activity() == old(self).last_activity(),
            final(self).progressed_from(*old(self)),
    {
        if rank_of(new_state) >= rank_of(self.state) {
            self.state = new_state;
        }
    }

    /// Records activity at monotonic time `now`; an earlier `now` leaves the
    /// time of the last activity as it is.
    pub fn update_activity(&mut self, now: u64)
        ensures
            final(self).last_activity() == if now > old(self).last_activity() {
                now
            } else {
                old(self).last_activity()
            },
            now >= old(self).last_activity() ==> final(self).last_activity() == now,
            final(self).current_state() == old(self).current_state(),
            final(self).counters() == old(self).counters(),
            final(self).progressed_from(*old(self)),
    {
        if now > self.last_activity {
            self.last_activity = now;
        }
    }

    /// Milliseconds since the last activity, at monotonic time `now`.
    pub fn time_since_activity(&self, now: u64) -> (r: u64)
        ensures
            r == elapsed_ms(self.last_activity(), now),
    {
        now.saturating_sub(self.last_activity)
    }

    /// Milliseconds since creation, at wall-clock time `now`; zero if the
    /// clock reads earlier than the creation time.
    pub fn uptime(&self, now: u64) -> (r: u64)
        ensures
            r == elapsed_ms(self.created_at(), now),
    {
        now.saturating_sub(self.created_at)
    }

    /// Counts one packet of `size` bytes sent (counters saturate).
    pub fn record_packet_sent(&mut self, size: usize)
        ensures
            final(self).counters() == old(self).counters().after_sent(size),
            final(self).current_state() == old(self).current_state(),
            final(self).last_activity() == old(self).last_activity(),
            final(self).progressed_from(*old(self)),
    {
        self.stats.packets_sent = self.stats.packets_sent.saturating_add(1);
        self.stats.bytes_sent = self.stats.bytes_sent.saturating_add(size as u64);
    }

    /// Counts one packet of `size` bytes received (counters saturate).
    pub fn record_packet_received(&mut self, size: usize)
        ensures
            final(self).counters() == old(self).counters().after_received(size),
            final(self).current_state() == old(self).current_state(),
            final(self).last_activity() == old(self).last_activity(),
            final(self).progressed_from(*old(self)),
    {
        self.stats.packets_received = self.stats.packets_received.saturating_add(1);
        self.stats.bytes_received = self.stats.bytes_received.saturating_add(size as u64);
    }

    /// Counts one error (the counter saturates).
    pub fn record_error(&mut self)
        ensures
            final(self).counters() == old(self).counters().after_error(),
            final(self).current_state() == old(self).current_state(),
            final(self).last_activity() == old(self).last_activity(),
            final(self).progressed_from(*old(self)),
    {
        self.stats.errors = self.stats.errors.saturating_add(1);
    }

    pub fn stats(&self) -> (r: SessionStats)
        ensures
            r == self.counters(),
    {
        self.stats
    }

    pub fn is_active(&self) -> (r: bool)
        ensures
            r == (self.current_state() == SessionState::Active),
    {
        self.state == SessionState::Active
    }

    /// Whether more than `timeout` milliseconds have passed since the last
    /// activity, at monotonic time `now`.
    pub fn should_timeout(&self, timeout: u64, now: u64) -> (r: bool)
        ensures
            r == (elapsed_ms(self.last_activity(), now) > timeout),
    {
        self.time_since_activity(now) > timeout
    }
}

/// Whatever the session's operations do, one after another, the state never
/// goes back, and the activity time and every counter never decrease.
pub proof fn lemma_session_progress_transitive(a: Session, b: Session, c: Session)
    requires
        b.progressed_from(a),
        c.progressed_from(b),
    ensures
        c.progressed_from(a),
{
}

} // verus!
