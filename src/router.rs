use vstd::prelude::*;

use crate::connection::{lemma_update_keeps_unique, Connection, ConnectionManager};
use crate::error::{LostLoveError, Result};
use crate::session::{SessionId, SessionState, SessionStats};

verus! {

/// Only connection `i` changed, and only in its session's counters (now
/// `counters`) and activity time (now `activity`).
pub open spec fn touched_at(
    before: Seq<Connection>,
    after: Seq<Connection>,
    i: int,
    counters: SessionStats,
    activity: u64,
) -> bool {
    &&& after.len() == before.len()
    &&& 0 <= i < before.len()
    &&& forall|j: int| 0 <= j < before.len() && j != i ==> after[j] == before[j]
    &&& after[i].session_view().progressed_from(before[i].session_view())
    &&& after[i].session_view().current_state() == before[i].session_view().current_state()
    &&& after[i].session_view().counters() == counters
    &&& after[i].session_view().last_activity() == activity
    &&& after[i].handshake_view() == before[i].handshake_view()
    &&& after[i].sequence() == before[i].sequence()
}

/// The later of two monotonic times.
pub open spec fn later(a: u64, b: u64) -> u64 {
    if b > a {
        b
    } else {
        a
    }
}

/// Moves packets between the tunnel device and the connections, keeping
/// the per-session counters; forwarding itself is not done yet.
pub struct PacketRouter {
    connection_manager: ConnectionManager,
}

fn id_text(id: &SessionId) -> (r: String)
    ensures
        r@ == id@,
{
    id.as_str().to_owned()
}

impl PacketRouter {
    pub closed spec fn manager(&self) -> ConnectionManager {
        self.connection_manager
    }

    pub fn new(connection_manager: ConnectionManager) -> (r: PacketRouter)
        ensures
            r.manager() == connection_manager,
    {
        PacketRouter { connection_manager }
    }

    pub fn connection_manager(&self) -> (r: &ConnectionManager)
        ensures
            *r == self.manager(),
    {
        &self.connection_manager
    }

    /// The registry, for adding and removing connections.
    pub fn connection_manager_mut(&mut self) -> (r: &mut ConnectionManager)
        ensures
            *r == old(self).manager(),
            final(self).manager() == *final(r),
    {
        &mut self.connection_manager
    }

    /// Applies one counter update to connection `i`.
    fn count_at(&mut self, i: usize, size: usize, sent: bool, now: u64)
        requires
            old(self).manager().wf(),
            i < old(self).manager().connections().len(),
        ensures
            final(self).manager().wf(),
            touched_at(
                old(self).manager().connections(),
                final(self).manager().connections(),
                i as int,
                if sent {
                    old(self).manager().connections()[i as int].session_view().counters().after_sent(
                        size,
                    )
                } else {
                    old(self).manager().connections()[i as int].session_view().counters().after_received(
                        size,
                    )
                },
                if sent {
                    old(self).manager().connections()[i as int].session_view().last_activity()
                } else {
                    later(
                        old(self).manager().connections()[i as int].session_view().last_activity(),
                        now,
                    )
                },
            ),
            final(self).manager().active() == old(self).manager().active(),
            final(self).manager().total() == old(self).manager().total(),
            final(self).manager().max() == old(self).manager().max(),
    {
        let ghost before = self.connection_manager.connections();
        let c = self.connection_manager.connection_at_mut(i);
        let s = c.session_mut();
        if sent {
            s.record_packet_sent(size);
        } else {
            s.record_packet_received(size);
            s.update_activity(now);
        }
        proof {
            lemma_update_keeps_unique(before, i as int, self.connection_manager.connections()[i as int]);
        }
    }

    /// A packet from the tunnel for session `session_id`: counted as sent
    /// when the session is active.
    pub fn route_from_tun(&mut self, packet: &[u8], session_id: &SessionId) -> (r: Result<()>)
        requires
            old(self).manager().wf(),
        ensures
            final(self).manager().wf(),
            final(self).manager().active() == old(self).manager().active(),
            final(self).manager().total() == old(self).manager().total(),
            final(self).manager().max() == old(self).manager().max(),
            !old(self).manager().has_session(session_id@) ==> r is Err && r->Err_0 is SessionNotFound
                && r->Err_0->SessionNotFound_0@ == session_id@,
            r is Err ==> *final(self) == *old(self),
            old(self).manager().has_session(session_id@) ==> ({
                let i = old(self).manager().index_of(session_id@);
                let c = old(self).manager().connections()[i];
                &&& (c.session_view().current_state() == SessionState::Active) <==> r is Ok
                &&& r is Err ==> r->Err_0 is Connection
                &&& r is Ok ==> touched_at(
                    old(self).manager().connections(),
                    final(self).manager().connections(),
                    i,
                    c.session_view().counters().after_sent(packet@.len() as usize),
                    c.session_view().last_activity(),
                )
            }),
    {
        let i = match self.connection_manager.find_connection(session_id) {
            Some(i) => i,
            None => {
                return Err(LostLoveError::SessionNotFound(id_text(session_id)));
            },
        };
        if !self.connection_manager.connection_at(i).session().is_active() {
            return Err(LostLoveError::Connection("Session not active".to_string()));
        }
        self.count_at(i, packet.len(), true, 0);
        Ok(())
    }

    /// A packet from session `session_id` for the tunnel: counted as
    /// received and as activity at monotonic time `now`; the packet is
    /// handed back as it is.
    pub fn route_to_tun(&mut self, packet: &[u8], session_id: &SessionId, now: u64) -> (r: Result<
        Vec<u8>,
    >)
        requires
            old(self).manager().wf(),
        ensures
            final(self).manager().wf(),
            final(self).manager().active() == old(self).manager().active(),
            final(self).manager().total() == old(self).manager().total(),
            final(self).manager().max() == old(self).manager().max(),
            r is Ok <==> old(self).manager().has_session(session_id@),
            r is Err ==> r->Err_0 is SessionNotFound && r->Err_0->SessionNotFound_0@ == session_id@
                && *final(self) == *old(self),
            r is Ok ==> ({
                let i = old(self).manager().index_of(session_id@);
                let c = old(self).manager().connections()[i];
                &&& r->Ok_0@ == packet@
                &&& touched_at(
                    old(self).manager().connections(),
                    final(self).manager().connections(),
                    i,
                    c.session_view().counters().after_received(packet@.len() as usize),
                    later(c.session_view().last_activity(), now),
                )
            }),
    {
        let i = match self.connection_manager.find_connection(session_id) {
            Some(i) => i,
            None => {
                return Err(LostLoveError::SessionNotFound(id_text(session_id)));
            },
        };
        self.count_at(i, packet.len(), false, now);
        let mut out: Vec<u8> = Vec::new();
        let mut k: usize = 0;
        while k < packet.len()
            invariant
                k <= packet@.len(),
                out@ == packet@.subrange(0, k as int),
            decreases packet@.len() - k,
        {
            out.push(packet[k]);
            k = k + 1;
            assert(out@ =~= packet@.subrange(0, k as int));
        }
        assert(packet@.subrange(0, packet@.len() as int) =~= packet@);
        Ok(out)
    }

    /// A packet between two sessions: counted as sent by `from_session` and
    /// received by `to_session`; fails if either is not registered.
    pub fn route_p2p(&mut self, packet: &[u8], from_session: &SessionId, to_session: &SessionId) -> (r:
        Result<()>)
        requires
            old(self).manager().wf(),
        ensures
            final(self).manager().wf(),
            final(self).manager().active() == old(self).manager().active(),
            final(self).manager().total() == old(self).manager().total(),
            final(self).manager().max() == old(self).manager().max(),
            r is Ok <==> old(self).manager().has_session(from_session@) && old(
                self,
            ).manager().has_session(to_session@),
            r is Err ==> *final(self) == *old(self) && r->Err_0 is SessionNotFound,
            !old(self).manager().has_session(from_session@) ==> r is Err
                && r->Err_0->SessionNotFound_0@ == from_session@,
            old(self).manager().has_session(from_session@) && !old(self).manager().has_session(
                to_session@,
            ) ==> r is Err && r->Err_0->SessionNotFound_0@ == to_session@,
            r is Ok ==> ({
                let f = old(self).manager().index_of(from_session@);
                let t = old(self).manager().index_of(to_session@);
                let before = old(self).manager().connections();
                let after = final(self).manager().connections();
                &&& after.len() == before.len()
                &&& forall|j: int| 0 <= j < before.len() && j != f && j != t ==> after[j] == before[j]
                &&& after[f].session_view().progressed_from(before[f].session_view())
                &&& after[t].session_view().progressed_from(before[t].session_view())
                &&& f != t ==> after[f].session_view().counters() == before[f].session_view().counters().after_sent(
                    packet@.len() as usize,
                )
                &&& f != t ==> after[t].session_view().counters() == before[t].session_view().counters().after_received(
                    packet@.len() as usize,
                )
                &&& f == t ==> after[f].session_view().counters() == before[f].session_view().counters().after_sent(
                    packet@.len() as usize,
                ).after_received(packet@.len() as usize)
            }),
    {
        let f = match self.connection_manager.find_connection(from_session) {
            Some(i) => i,
            None => {
                return Err(LostLoveError::SessionNotFound(id_text(from_session)));
            },
        };
        let t = match self.connection_manager.find_connection(to_session) {
            Some(i) => i,
            None => {
                return Err(LostLoveError::SessionNotFound(id_text(to_session)));
            },
        };
        self.count_at(f, packet.len(), true, 0);
        self.received_without_activity(t, packet.len());
        Ok(())
    }

    /// Counts a packet received by connection `i` without touching its activity time.
    fn received_without_activity(&mut self, i: usize, size: usize)
        requires
            old(self).manager().wf(),
            i < old(self).manager().connections().len(),
        ensures
            final(self).manager().wf(),
            touched_at(
                old(self).manager().connections(),
                final(self).manager().connections(),
                i as int,
                old(self).manager().connections()[i as int].session_view().counters().after_received(size),
                old(self).manager().connections()[i as int].session_view().last_activity(),
            ),
            final(self).manager().active() == old(self).manager().active(),
            final(self).manager().total() == old(self).manager().total(),
            final(self).manager().max() == old(self).manager().max(),
    {
        let ghost before = self.connection_manager.connections();
        let c = self.connection_manager.connection_at_mut(i);
        let s = c.session_mut();
        s.record_packet_received(size);
        proof {
            lemma_update_keeps_unique(before, i as int, self.connection_manager.connections()[i as int]);
        }
    }

    /// Number of registered connections.
    pub fn active_routes(&self) -> (r: usize)
        ensures
            r == self.manager().active(),
    {
        self.connection_manager.active_count()
    }
}

} // verus!
