//! Chat channels: named groups of sessions that messages go out to.
use vstd::prelude::*;

use crate::packets::{channel_message, le_of, packet_bytes};
use crate::codec::osu_string_bytes;
use crate::constants::Packets;
use crate::players::{all_queued, PlayerList};
use crate::session::{contains_value, remove_all, without, User};

verus! {

/// A channel; members are held by session id.
pub struct Channel {
    pub id: i32,
    pub name: String,
    pub description: String,
    pub users: Vec<i32>,
    pub autojoin: bool,
}

/// The frame that carries a chat message.
pub open spec fn message_bytes(sender: User, content: Seq<char>, channel: Seq<char>) -> Seq<u8> {
    packet_bytes(
        Packets::CHO_SEND_MESSAGE,
        osu_string_bytes(sender.username@) + osu_string_bytes(content) + osu_string_bytes(channel)
            + le_of(sender.id),
    )
}

impl Channel {
    /// Makes `player` a member; already a member, nothing changes.
    pub fn add_user(&mut self, player: &User)
        ensures
            final(self).users@ == (if old(self).users@.contains(player.id) {
                old(self).users@
            } else {
                old(self).users@.push(player.id)
            }),
            final(self).name == old(self).name,
    {
        if !contains_value(&self.users, player.id) {
            self.users.push(player.id);
        }
    }

    /// Drops the member with id `user_id`, however often it is listed.
    pub fn remove_user(&mut self, user_id: i32)
        ensures
            final(self).users@ == without(old(self).users@, user_id),
            !final(self).users@.contains(user_id),
            *final(self) == (Channel { users: final(self).users, ..*old(self) }),
    {
        remove_all(&mut self.users, user_id);
    }

    /// Sends a message from `player` to every registered member.
    pub fn send_message(&self, players: &mut PlayerList, player: &User, content: String)
        requires
            old(players).wf(),
        ensures
            final(players).wf(),
            all_queued(
                old(players).sessions(),
                final(players).sessions(),
                self.users@,
                message_bytes(*player, content@, self.name@),
            ),
    {
        let bytes = channel_message(player.username.clone(), player.id, content, self.name.clone());
        players.enqueue_to(&self.users, bytes.as_slice());
    }

    /// Sends a message from the registered session `user_id`; nothing happens
    /// when there is none.
    pub fn send_message_userid(&self, players: &mut PlayerList, user_id: i32, content: String)
        requires
            old(players).wf(),
        ensures
            final(players).wf(),
            old(players).registered(user_id) ==> all_queued(
                old(players).sessions(),
                final(players).sessions(),
                self.users@,
                message_bytes(
                    old(players).sessions()[old(players).index_of(user_id)],
                    content@,
                    self.name@,
                ),
            ),
            !old(players).registered(user_id) ==> final(players).sessions() == old(
                players,
            ).sessions(),
    {
        proof {
            old(players).lemma_index_of(user_id);
        }
        if let Some(i) = players.get_id(user_id) {
            let sender = players.get(i);
            let bytes = channel_message(sender.username.clone(), sender.id, content, self.name.clone());
            players.enqueue_to(&self.users, bytes.as_slice());
        }
    }
}

} // verus!
