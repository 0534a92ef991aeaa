//! Events from the control-plane feed: bans, password and name changes,
//! notifications.
use vstd::prelude::*;
use vstd::string::StringExecFns;

use crate::constants::Packets;
use crate::codec::osu_string_bytes;
use crate::login::{without_hash, PasswordCache};
use crate::packets::{le_of, notification, packet_bytes, server_restart};
use crate::players::{queued, PlayerList};
use crate::session::User;
use crate::status::Privileges;

verus! {

/// The feed's channels.
#[derive(Clone, Copy, Debug, PartialEq, Eq, Structural)]
pub enum FeedChannel {
    Ban,
    BotMessage,
    ChangePassword,
    Disconnect,
    Notification,
    ChangeUsername,
}

pub open spec fn spec_channel_of(name: Seq<char>) -> Option<FeedChannel> {
    if name == "peppy:ban"@ {
        Some(FeedChannel::Ban)
    } else if name == "peppy:bot_msg"@ {
        Some(FeedChannel::BotMessage)
    } else if name == "peppy:change_pass"@ {
        Some(FeedChannel::ChangePassword)
    } else if name == "peppy:disconnect"@ {
        Some(FeedChannel::Disconnect)
    } else if name == "peppy:notification"@ {
        Some(FeedChannel::Notification)
    } else if name == "peppy:change_username"@ {
        Some(FeedChannel::ChangeUsername)
    } else {
        None
    }
}

/// The channel a feed message came on; `None` for channels not listened to.
pub fn channel_of(name: &str) -> (r: Option<FeedChannel>)
    ensures
        r == spec_channel_of(name@),
{
    let n = name.to_owned();
    if n == String::from_str("peppy:ban") {
        Some(FeedChannel::Ban)
    } else if n == String::from_str("peppy:bot_msg") {
        Some(FeedChannel::BotMessage)
    } else if n == String::from_str("peppy:change_pass") {
        Some(FeedChannel::ChangePassword)
    } else if n == String::from_str("peppy:disconnect") {
        Some(FeedChannel::Disconnect)
    } else if n == String::from_str("peppy:notification") {
        Some(FeedChannel::Notification)
    } else if n == String::from_str("peppy:change_username") {
        Some(FeedChannel::ChangeUsername)
    } else {
        None
    }
}

impl User {
    /// Takes the privileges read back from the store.
    pub fn refresh_privileges(&mut self, privileges: Privileges)
        ensures
            *final(self) == (User { privileges: privileges, ..*old(self) }),
    {
        self.privileges = privileges;
    }

    /// After a restriction: takes the new privileges and tells the client to
    /// log in again.
    pub fn handle_restriction(&mut self, privileges: Privileges)
        ensures
            final(self).privileges == privileges,
            queued(
                User { privileges: privileges, ..*old(self) },
                *final(self),
                packet_bytes(Packets::CHO_RESTART, le_of(0i32)),
            ),
    {
        self.refresh_privileges(privileges);
        let p = server_restart(0);
        self.enqueue(p.as_slice());
    }
}

/// Queues `bytes` for the registered session `user_id`, after giving it
/// `privileges` where those are given.
fn update_session(players: &mut PlayerList, user_id: i32, privileges: Option<Privileges>, bytes: &[u8])
    requires
        old(players).wf(),
    ensures
        final(players).wf(),
        !old(players).registered(user_id) ==> *final(players) == *old(players),
        old(players).registered(user_id) ==> {
            let i = old(players).index_of(user_id);
            let before = old(players).sessions()[i];
            let base = match privileges {
                Some(p) => User { privileges: p, ..before },
                None => before,
            };
            &&& final(players).sessions() == old(players).sessions().update(
                i,
                final(players).sessions()[i],
            )
            &&& queued(base, final(players).sessions()[i], bytes@)
        },
{
    proof {
        old(players).lemma_index_of(user_id);
    }
    let i = match players.get_id(user_id) {
        Some(i) => i,
        None => return,
    };
    let ghost listed = *players;
    let mut user = players.take(i);
    proof {
        let s = players.sessions();
        assert forall|k: int| 0 <= k < s.len() implies #[trigger] s[k].id != user_id by {
            if k < i {
                assert(s[k] == listed.sessions()[k]);
            } else {
                assert(s[k] == listed.sessions()[k + 1]);
            }
        }
        players.lemma_index_of(user_id);
    }
    match privileges {
        Some(p) => user.refresh_privileges(p),
        None => {},
    }
    user.enqueue(bytes);
    players.restore(i, user);
    assert(players.sessions() =~= listed.sessions().update(i as int, players.sessions()[i as int]));
}

/// A ban on `user_id`: when connected, the session takes its new privileges
/// and is told to log in again.
pub fn handle_ban(players: &mut PlayerList, user_id: i32, privileges: Privileges)
    requires
        old(players).wf(),
    ensures
        final(players).wf(),
        !old(players).registered(user_id) ==> *final(players) == *old(players),
        old(players).registered(user_id) ==> {
            let i = old(players).index_of(user_id);
            &&& final(players).sessions() == old(players).sessions().update(
                i,
                final(players).sessions()[i],
            )
            &&& final(players).sessions()[i].privileges == privileges
            &&& queued(
                User { privileges: privileges, ..old(players).sessions()[i] },
                final(players).sessions()[i],
                packet_bytes(Packets::CHO_RESTART, le_of(0i32)),
            )
        },
{
    let p = server_restart(0);
    update_session(players, user_id, Some(privileges), p.as_slice());
}

/// A password change: every password cached with the old hash is forgotten.
pub fn handle_password_change(cache: &mut PasswordCache, hash: &str)
    ensures
        final(cache).entries() == without_hash(old(cache).entries(), hash@),
{
    cache.forget_hash(hash);
}

/// The text sent on a change of name.
pub open spec fn renamed_text(name: Seq<char>) -> Seq<char> {
    "Your username has been changed to "@ + name + "!"@
}

/// A change of display name: when connected, the session is told and asked
/// to log in again.
pub fn handle_username_change(players: &mut PlayerList, user_id: i32, new_name: &str)
    requires
        old(players).wf(),
    ensures
        final(players).wf(),
        !old(players).registered(user_id) ==> *final(players) == *old(players),
        old(players).registered(user_id) ==> {
            let i = old(players).index_of(user_id);
            &&& final(players).sessions() == old(players).sessions().update(
                i,
                final(players).sessions()[i],
            )
            &&& queued(
                old(players).sessions()[i],
                final(players).sessions()[i],
                packet_bytes(Packets::CHO_NOTIFICATION, osu_string_bytes(renamed_text(new_name@)))
                    + packet_bytes(Packets::CHO_RESTART, le_of(0i32)),
            )
        },
{
    let text = String::from_str("Your username has been changed to ").concat(new_name).concat("!");
    let mut bytes = notification(text.as_str());
    let restart = server_restart(0);
    crate::codec::append_bytes(&mut bytes, restart.as_slice());
    update_session(players, user_id, None, bytes.as_slice());
}

/// A notification for `user_id`, queued when it is connected.
pub fn handle_notification(players: &mut PlayerList, user_id: i32, message: &str)
    requires
        old(players).wf(),
    ensures
        final(players).wf(),
        !old(players).registered(user_id) ==> *final(players) == *old(players),
        old(players).registered(user_id) ==> {
            let i = old(players).index_of(user_id);
            &&& final(players).sessions() == old(players).sessions().update(
                i,
                final(players).sessions()[i],
            )
            &&& queued(
                old(players).sessions()[i],
                final(players).sessions()[i],
                packet_bytes(Packets::CHO_NOTIFICATION, osu_string_bytes(message@)),
            )
        },
{
    let bytes = notification(message);
    update_session(players, user_id, None, bytes.as_slice());
}

} // verus!
