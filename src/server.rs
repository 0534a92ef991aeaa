//! Server-wide state and the interactions between sessions: spectating and
//! logging out.
use vstd::prelude::*;

use crate::channel::Channel;
use crate::packets::{
    host_spectator_joined, host_spectator_left, le_of, logout, packet_bytes, spectator_joined,
    spectator_left,
};
use crate::constants::Packets;
use crate::players::{all_queued, id_is, queued, PlayerList};
use crate::session::{contains_value, remove_first, remove_value, without, User};

verus! {

/// Everything shared between connections: the live sessions and the chat channels.
pub struct Server {
    pub players: PlayerList,
    pub channels: Vec<Channel>,
}

impl Server {
    pub open spec fn wf(&self) -> bool {
        self.players.wf()
    }

    pub fn new() -> (r: Server)
        ensures
            r.wf(),
            r.players.sessions() == Seq::<User>::empty(),
            r.channels@ == Seq::<Channel>::empty(),
    {
        Server { players: PlayerList::new(), channels: Vec::new() }
    }
}

/// Same sessions, in the same order, as far as ids go.
pub open spec fn same_ids(a: Seq<User>, b: Seq<User>) -> bool {
    a.len() == b.len() && forall|k: int| 0 <= k < a.len() ==> #[trigger] a[k].id == b[k].id
}

pub proof fn lemma_same_ids_refl(a: Seq<User>)
    ensures
        same_ids(a, a),
{
}

pub proof fn lemma_same_ids_trans(a: Seq<User>, b: Seq<User>, c: Seq<User>)
    requires
        same_ids(a, b),
        same_ids(b, c),
    ensures
        same_ids(a, c),
{
    assert forall|k: int| 0 <= k < a.len() implies #[trigger] a[k].id == c[k].id by {
        assert(a[k].id == b[k].id);
        assert(b[k].id == c[k].id);
    }
}

pub proof fn lemma_same_ids_index(a: PlayerList, b: PlayerList, id: i32)
    requires
        same_ids(a.sessions(), b.sessions()),
    ensures
        a.index_of(id) == b.index_of(id),
{
    a.lemma_index_of(id);
    b.lemma_index_of(id);
    crate::players::lemma_first_index_found(a.sessions(), id_is(id));
    let i = a.index_of(id);
    if i >= 0 {
        assert forall|j: int| 0 <= j < i implies !id_is(id)(#[trigger] b.sessions()[j]) by {
            assert(a.sessions()[j].id == b.sessions()[j].id);
            assert(!id_is(id)(a.sessions()[j]));
        }
        crate::players::lemma_first_index(b.sessions(), id_is(id), i);
    } else {
        assert forall|j: int| 0 <= j < b.sessions().len() implies !id_is(id)(
            #[trigger] b.sessions()[j],
        ) by {
            assert(a.sessions()[j].id == b.sessions()[j].id);
        }
        crate::players::lemma_first_index(b.sessions(), id_is(id), b.sessions().len() as int);
    }
}

pub proof fn lemma_all_queued_same_ids(old: Seq<User>, new: Seq<User>, ids: Seq<i32>, extra: Seq<u8>)
    requires
        all_queued(old, new, ids, extra),
    ensures
        same_ids(old, new),
{
    assert forall|k: int| 0 <= k < old.len() implies #[trigger] old[k].id == new[k].id by {
        assert(queued(old[k], new[k], if ids.contains(old[k].id) { extra } else { Seq::empty() }));
    }
}

/// The notices that tell a new spectator of each one already there.
pub open spec fn joined_notices(ids: Seq<i32>) -> Seq<u8>
    decreases ids.len(),
{
    if ids.len() == 0 {
        Seq::empty()
    } else {
        joined_notices(ids.drop_last()) + packet_bytes(
            Packets::CHO_FELLOW_SPECTATOR_JOINED,
            le_of(ids.last()),
        )
    }
}

impl User {
    /// This session (not in `players`) takes `user` as a spectator: the
    /// spectators already there and `user` learn of each other, `user` now
    /// spectates this session, and this session is told.
    pub fn add_spectator(&mut self, user: &mut User, players: &mut PlayerList)
        requires
            old(players).wf(),
        ensures
            final(players).wf(),
            all_queued(
                old(players).sessions(),
                final(players).sessions(),
                old(self).spectators@,
                packet_bytes(Packets::CHO_FELLOW_SPECTATOR_JOINED, le_of(old(user).id)),
            ),
            final(self).spectators@ == (if old(self).spectators@.contains(old(user).id) {
                old(self).spectators@
            } else {
                old(self).spectators@.push(old(user).id)
            }),
            final(self).queue@ == old(self).queue@ + packet_bytes(
                Packets::CHO_SPECTATOR_JOINED,
                le_of(old(user).id),
            ),
            *final(self) == (User {
                spectators: final(self).spectators,
                queue: final(self).queue,
                ..*old(self)
            }),
            final(user).spectating == Some(old(self).id),
            final(user).queue@ == old(user).queue@ + joined_notices(old(self).spectators@),
            *final(user) == (User {
                spectating: final(user).spectating,
                queue: final(user).queue,
                ..*old(user)
            }),
    {
        let join_packet = spectator_joined(user.id);
        players.enqueue_to(&self.spectators, join_packet.as_slice());
        let mut i: usize = 0;
        while i < self.spectators.len()
            invariant
                i <= self.spectators@.len(),
                self.spectators == old(self).spectators,
                user.queue@ == old(user).queue@ + joined_notices(self.spectators@.subrange(0, i as int)),
                *user == (User { queue: user.queue, ..*old(user) }),
            decreases self.spectators@.len() - i,
        {
            let notice = spectator_joined(self.spectators[i]);
            user.enqueue(notice.as_slice());
            proof {
                let sub = self.spectators@.subrange(0, i + 1);
                assert(sub.drop_last() =~= self.spectators@.subrange(0, i as int));
            }
            i = i + 1;
        }
        assert(self.spectators@.subrange(0, i as int) =~= self.spectators@);
        if !contains_value(&self.spectators, user.id) {
            self.spectators.push(user.id);
        }
        user.spectating = Some(self.id);
        let host_packet = host_spectator_joined(user.id);
        self.enqueue(host_packet.as_slice());
    }

    /// `user` stops spectating this session (not in `players`): it leaves the
    /// spectators, the remaining spectators and this session are told.
    pub fn remove_spectator(&mut self, user: &mut User, players: &mut PlayerList)
        requires
            old(players).wf(),
        ensures
            final(players).wf(),
            final(self).spectators@ == remove_first(old(self).spectators@, old(user).id),
            all_queued(
                old(players).sessions(),
                final(players).sessions(),
                final(self).spectators@,
                packet_bytes(Packets::CHO_FELLOW_SPECTATOR_LEFT, le_of(old(user).id)),
            ),
            final(self).queue@ == old(self).queue@ + packet_bytes(
                Packets::CHO_SPECTATOR_LEFT,
                le_of(old(user).id),
            ),
            *final(self) == (User {
                spectators: final(self).spectators,
                queue: final(self).queue,
                ..*old(self)
            }),
            *final(user) == (User { spectating: None, ..*old(user) }),
    {
        remove_value(&mut self.spectators, user.id);
        user.spectating = None;
        let leave_packet = spectator_left(user.id);
        players.enqueue_to(&self.spectators, leave_packet.as_slice());
        let host_packet = host_spectator_left(user.id);
        self.enqueue(host_packet.as_slice());
    }

    /// Leaves the server: deregistered, out of every channel, and, unless
    /// restricted, every session is told.
    pub fn logout(&self, server: &mut Server)
        requires
            old(server).wf(),
        ensures
            final(server).wf(),
            !final(server).players.registered(self.id),
            final(server).channels@.len() == old(server).channels@.len(),
            forall|k: int|
                0 <= k < old(server).channels@.len() ==> (#[trigger] final(server).channels@[k]).users@
                    == without(old(server).channels@[k].users@, self.id)
                    && !final(server).channels@[k].users@.contains(self.id)
                    && final(server).channels@[k] == (Channel {
                        users: final(server).channels@[k].users,
                        ..old(server).channels@[k]
                    }),
            exists|p: PlayerList|
                {
                    &&& p.wf()
                    &&& !p.registered(self.id)
                    &&& old(server).players.registered(self.id) ==> p.sessions() == old(
                        server,
                    ).players.sessions().remove(old(server).players.index_of(self.id))
                    &&& !old(server).players.registered(self.id) ==> p.sessions() == old(
                        server,
                    ).players.sessions()
                    &&& if self.spec_restricted() {
                        final(server).players.sessions() == p.sessions()
                    } else {
                        p.broadcast_to(
                            &final(server).players,
                            packet_bytes(Packets::CHO_USER_LOGOUT, le_of(self.id) + le_of(0u8)),
                        )
                    }
                },
    {
        server.players.remove(self.id);
        let ghost removed = server.players;
        let mut k: usize = 0;
        while k < server.channels.len()
            invariant
                k <= server.channels@.len(),
                server.players == removed,
                server.channels@.len() == old(server).channels@.len(),
                forall|j: int|
                    0 <= j < k ==> (#[trigger] server.channels@[j]).users@ == without(
                        old(server).channels@[j].users@,
                        self.id,
                    ) && !server.channels@[j].users@.contains(self.id) && server.channels@[j] == (
                    Channel { users: server.channels@[j].users, ..old(server).channels@[j] }),
                forall|j: int|
                    k <= j < server.channels@.len() ==> #[trigger] server.channels@[j] == old(
                        server,
                    ).channels@[j],
            decreases server.channels@.len() - k,
        {
            server.channels[k].remove_user(self.id);
            k = k + 1;
        }
        if !self.restricted() {
            let packet = logout(self.id);
            server.players.enqueue(packet.as_slice());
            proof {
                lemma_broadcast_same_ids(removed, server.players, packet@);
                lemma_same_ids_index(removed, server.players, self.id);
            }
        }
    }
}

pub proof fn lemma_broadcast_same_ids(a: PlayerList, b: PlayerList, extra: Seq<u8>)
    requires
        a.broadcast_to(&b, extra),
    ensures
        same_ids(a.sessions(), b.sessions()),
{
    assert forall|k: int| 0 <= k < a.sessions().len() implies #[trigger] a.sessions()[k].id
        == b.sessions()[k].id by {
        assert(queued(a.sessions()[k], b.sessions()[k], extra));
    }
}

} // verus!
