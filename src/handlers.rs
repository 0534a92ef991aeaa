//! Handlers of the client's packets. During a request its session is held
//! apart from the registry; the registry holds everyone else.
use vstd::prelude::*;

use crate::codec::{i32_list_read, osu_string_read, Readable};
use crate::constants::Packets;
use crate::packets::{
    le_of, packet_bytes, pong, presence_payload, spectate_frames, stats_payload, user_presence,
    user_stats,
};
use crate::players::{all_queued, first_index, id_is, queued, PlayerList};
use crate::reader::Reader;
use crate::server::same_ids;
use crate::session::{contains_value, remove_first, StoreOp, User};
use crate::status::{Action, Mode, Mods};

verus! {

/// The value of type `T` at the front of `s`.
pub open spec fn int_at<T: Readable>(s: Seq<u8>) -> T {
    T::spec_from_le(s.subrange(0, T::byte_len() as int))
}

pub open spec fn presence_of(u: User) -> Seq<u8> {
    packet_bytes(Packets::CHO_USER_PRESENCE, presence_payload(u))
}

pub open spec fn stats_of(u: User) -> Seq<u8> {
    packet_bytes(Packets::CHO_USER_STATS, stats_payload(u))
}

/// The session with id `id` while `caller`'s request runs: the caller itself,
/// or the first registered one.
pub open spec fn session_for(s: Seq<User>, caller: User, id: i32) -> Option<User> {
    if id == caller.id {
        Some(caller)
    } else {
        let i = first_index(s, id_is(id));
        if i >= 0 {
            Some(s[i])
        } else {
            None
        }
    }
}

/// Presence packets of the sessions `ids` names, in order, skipping unknown
/// ids and, where `public_only`, restricted sessions.
pub open spec fn presence_replies(s: Seq<User>, caller: User, ids: Seq<i32>, public_only: bool) -> Seq<
    u8,
>
    decreases ids.len(),
{
    if ids.len() == 0 {
        Seq::empty()
    } else {
        presence_replies(s, caller, ids.drop_last(), public_only) + match session_for(
            s,
            caller,
            ids.last(),
        ) {
            Some(u) => if public_only && u.spec_restricted() {
                Seq::empty()
            } else {
                presence_of(u)
            },
            None => Seq::empty(),
        }
    }
}

/// Presence packets of the sessions of `s` that are not restricted, in order.
pub open spec fn public_presences(s: Seq<User>) -> Seq<u8>
    decreases s.len(),
{
    if s.len() == 0 {
        Seq::empty()
    } else {
        public_presences(s.drop_last()) + if s.last().spec_restricted() {
            Seq::empty()
        } else {
            presence_of(s.last())
        }
    }
}

/// Queues, for `user`, the presence of each session that `ids` names.
fn queue_presences(players: &PlayerList, user: &mut User, ids: &Vec<i32>, public_only: bool)
    ensures
        queued(
            *old(user),
            *final(user),
            presence_replies(players.sessions(), *old(user), ids@, public_only),
        ),
{
    let mut i: usize = 0;
    while i < ids.len()
        invariant
            i <= ids@.len(),
            queued(
                *old(user),
                *user,
                presence_replies(
                    players.sessions(),
                    *old(user),
                    ids@.subrange(0, i as int),
                    public_only,
                ),
            ),
        decreases ids@.len() - i,
    {
        let uid = ids[i];
        let ghost before = user.queue@;
        proof {
            let sub = ids@.subrange(0, i + 1);
            assert(sub.drop_last() =~= ids@.subrange(0, i as int));
            assert(sub.last() == uid);
            players.lemma_index_of(uid);
        }
        if uid == user.id {
            if !(public_only && user.restricted()) {
                let p = user_presence(user);
                user.enqueue(p.as_slice());
            }
        } else {
            match players.get_id(uid) {
                Some(j) => {
                    let target = players.get(j);
                    if !(public_only && target.restricted()) {
                        let p = user_presence(target);
                        user.enqueue(p.as_slice());
                    }
                },
                None => {},
            }
        }
        proof {
            assert(user.queue@ =~= old(user).queue@ + presence_replies(
                players.sessions(),
                *old(user),
                ids@.subrange(0, i + 1),
                public_only,
            ));
        }
        i = i + 1;
    }
    assert(ids@.subrange(0, i as int) =~= ids@);
}

/// Replies to a ping with a pong.
pub fn ping(user: &mut User) -> (r: bool)
    ensures
        r,
        queued(*old(user), *final(user), packet_bytes(Packets::CHO_PONG, Seq::empty())),
{
    let p = pong();
    user.enqueue(p.as_slice());
    true
}

/// Sends the caller its own statistics.
pub fn status_update(user: &mut User) -> (r: bool)
    ensures
        r,
        queued(*old(user), *final(user), stats_of(*old(user))),
{
    let p = user_stats(user);
    user.enqueue(p.as_slice());
    true
}

/// Sends the caller the presence of each listed session that is registered
/// and not restricted.
pub fn stats_request(players: &PlayerList, user: &mut User, reader: &mut Reader) -> (r: Option<bool>)
    ensures
        match i32_list_read(old(reader).rest()) {
            Some((ids, n)) => r == Some(false) && old(reader).advanced(final(reader), n) && queued(
                *old(user),
                *final(user),
                presence_replies(players.sessions(), *old(user), ids, true),
            ),
            None => r is None && old(reader).advanced(final(reader), 0) && *final(user) == *old(
                user,
            ),
        },
{
    let ids = match reader.read_i32_list() {
        Some(ids) => ids,
        None => return None,
    };
    queue_presences(players, user, &ids, true);
    Some(false)
}

/// Sends the caller the presence of each listed session that is registered,
/// restricted or not.
pub fn presence_request(players: &PlayerList, user: &mut User, reader: &mut Reader) -> (r: Option<
    bool,
>)
    ensures
        match i32_list_read(old(reader).rest()) {
            Some((ids, n)) => r == Some(false) && old(reader).advanced(final(reader), n) && queued(
                *old(user),
                *final(user),
                presence_replies(players.sessions(), *old(user), ids, false),
            ),
            None => r is None && old(reader).advanced(final(reader), 0) && *final(user) == *old(
                user,
            ),
        },
{
    let ids = match reader.read_i32_list() {
        Some(ids) => ids,
        None => return None,
    };
    queue_presences(players, user, &ids, false);
    Some(false)
}

/// Sends the caller the presence of every session that is not restricted,
/// its own last.
pub fn full_presence(players: &PlayerList, user: &mut User) -> (r: bool)
    ensures
        r,
        queued(
            *old(user),
            *final(user),
            public_presences(players.sessions()) + if old(user).spec_restricted() {
                Seq::empty()
            } else {
                presence_of(*old(user))
            },
        ),
{
    let mut k: usize = 0;
    while k < players.player_count()
        invariant
            k <= players.sessions().len(),
            queued(*old(user), *user, public_presences(players.sessions().subrange(0, k as int))),
        decreases players.sessions().len() - k,
    {
        let other = players.get(k);
        if !other.restricted() {
            let p = user_presence(other);
            user.enqueue(p.as_slice());
        }
        proof {
            let sub = players.sessions().subrange(0, k + 1);
            assert(sub.drop_last() =~= players.sessions().subrange(0, k as int));
            assert(sub.last() == players.sessions()[k as int]);
            assert(user.queue@ =~= old(user).queue@ + public_presences(sub));
        }
        k = k + 1;
    }
    assert(players.sessions().subrange(0, k as int) =~= players.sessions());
    if !user.restricted() {
        let p = user_presence(user);
        user.enqueue(p.as_slice());
    } else {
        assert(user.queue@ =~= user.queue@ + Seq::<u8>::empty());
    }
    assert(user.queue@ =~= old(user).queue@ + (public_presences(players.sessions()) + if old(
        user,
    ).spec_restricted() {
        Seq::empty()
    } else {
        presence_of(*old(user))
    }));
    true
}

/// Adds the target id to the caller's friends and records the change, unless
/// it is a friend already.
pub fn add_friend(user: &mut User, reader: &mut Reader, ops: &mut Vec<StoreOp>) -> (r: Option<bool>)
    ensures
        old(reader).rest().len() < 4 ==> r is None && old(reader).advanced(final(reader), 0)
            && *final(user) == *old(user) && final(ops)@ == old(ops)@,
        old(reader).rest().len() >= 4 ==> {
            let target = int_at::<i32>(old(reader).rest());
            &&& r == Some(false)
            &&& old(reader).advanced(final(reader), 4)
            &&& if old(user).friends@.contains(target) {
                *final(user) == *old(user) && final(ops)@ == old(ops)@
            } else {
                &&& final(user).friends@ == old(user).friends@.push(target)
                &&& *final(user) == (User { friends: final(user).friends, ..*old(user) })
                &&& final(ops)@ == old(ops)@.push(
                    StoreOp::AddFriend { user: old(user).id, target: target },
                )
            }
        },
{
    let target: i32 = match reader.read_int() {
        Some(t) => t,
        None => return None,
    };
    if contains_value(&user.friends, target) {
        return Some(false);
    }
    let op = user.add_friend(target);
    ops.push(op);
    Some(false)
}

/// Removes the target id from the caller's friends and records the change,
/// unless it is no friend.
pub fn remove_friend(user: &mut User, reader: &mut Reader, ops: &mut Vec<StoreOp>) -> (r: Option<
    bool,
>)
    ensures
        old(reader).rest().len() < 4 ==> r is None && old(reader).advanced(final(reader), 0)
            && *final(user) == *old(user) && final(ops)@ == old(ops)@,
        old(reader).rest().len() >= 4 ==> {
            let target = int_at::<i32>(old(reader).rest());
            &&& r == Some(false)
            &&& old(reader).advanced(final(reader), 4)
            &&& if old(user).friends@.contains(target) {
                &&& final(user).friends@ == remove_first(old(user).friends@, target)
                &&& *final(user) == (User { friends: final(user).friends, ..*old(user) })
                &&& final(ops)@ == old(ops)@.push(
                    StoreOp::RemoveFriend { user: old(user).id, target: target },
                )
            } else {
                *final(user) == *old(user) && final(ops)@ == old(ops)@
            }
        },
{
    let target: i32 = match reader.read_int() {
        Some(t) => t,
        None => return None,
    };
    if !contains_value(&user.friends, target) {
        return Some(false);
    }
    match user.remove_friend(target) {
        Some(op) => ops.push(op),
        None => {},
    }
    Some(false)
}

/// The fields of a status change at the front of `s`: action byte, info text,
/// beatmap checksum, mods, raw mode byte and beatmap id; and the bytes they take.
pub open spec fn status_read(s: Seq<u8>) -> Option<(u8, Seq<char>, Seq<char>, u32, u8, i32, nat)> {
    if s.len() < 1 {
        None
    } else {
        match osu_string_read(s.subrange(1, s.len() as int)) {
            None => None,
            Some((info, n1)) => {
                let info_end: int = 1 + n1 as int;
                match osu_string_read(s.subrange(info_end, s.len() as int)) {
                    None => None,
                    Some((md5, n2)) => {
                        let md5_end: int = info_end + n2 as int;
                        if md5_end + 9 > s.len() {
                            None
                        } else {
                            Some(
                                (
                                    int_at::<u8>(s),
                                    info,
                                    md5,
                                    int_at::<u32>(s.subrange(md5_end, s.len() as int)),
                                    int_at::<u8>(s.subrange(md5_end + 4, s.len() as int)),
                                    int_at::<i32>(s.subrange(md5_end + 5, s.len() as int)),
                                    (md5_end + 9) as nat,
                                ),
                            )
                        }
                    },
                }
            },
        }
    }
}

/// The action a byte stands for; unknown bytes stand for `Action::Unknown`.
pub open spec fn action_of(v: u8) -> Action {
    match Action::spec_from_u8(v) {
        Some(a) => a,
        None => Action::Unknown,
    }
}

/// The mode after a status change; a raw mode byte that names no vanilla mode
/// leaves it as it was.
pub open spec fn mode_after(current: Mode, mode: u8, mods: u32) -> Mode {
    match Mode::spec_from_mods(mode as i32, mods as i32) {
        Some(m) => m,
        None => current,
    }
}

/// Takes the caller's new status and, unless it is restricted, sends its
/// statistics to every session, its own included.
pub fn change_action(players: &mut PlayerList, user: &mut User, reader: &mut Reader) -> (r: Option<
    bool,
>)
    requires
        old(players).wf(),
    ensures
        final(players).wf(),
        final(reader).bytes() == old(reader).bytes(),
        match status_read(old(reader).rest()) {
            None => r is None && *final(user) == *old(user) && *final(players) == *old(players),
            Some((a, info, md5, mods, mode, map_id, n)) => {
                &&& r == Some(false)
                &&& old(reader).advanced(final(reader), n)
                &&& final(user).info_text@ == info
                &&& final(user).map_md5@ == md5
                &&& *final(user) == (User {
                    action: action_of(a),
                    info_text: final(user).info_text,
                    map_md5: final(user).map_md5,
                    mods: Mods { bits: mods as i32 },
                    current_mode: mode_after(old(user).current_mode, mode, mods),
                    map_id: map_id,
                    queue: final(user).queue,
                    ..*old(user)
                })
                &&& if old(user).spec_restricted() {
                    final(user).queue@ == old(user).queue@ && *final(players) == *old(players)
                } else {
                    final(user).queue@ == old(user).queue@ + stats_of(*final(user)) && old(
                        players,
                    ).broadcast_to(final(players), stats_of(*final(user)))
                }
            },
        },
{
    let ghost s = reader.rest();
    let ghost r0 = *reader;
    proof {
        crate::codec::lemma_osu_string_read_len(s.subrange(1, s.len() as int));
    }
    let action_id: u8 = match reader.read_int() {
        Some(v) => v,
        None => return None,
    };
    let ghost r1 = *reader;
    proof {
        crate::reader::lemma_advanced_rest(&r0, &r1, 1);
    }
    let action_info = match reader.read_str() {
        Some(v) => v,
        None => return None,
    };
    let ghost r2 = *reader;
    let ghost n1 = (r2.pos() - r1.pos()) as nat;
    proof {
        crate::codec::lemma_osu_string_read_len(r1.rest());
        crate::reader::lemma_advanced_rest(&r1, &r2, n1);
        crate::codec::lemma_osu_string_read_len(s.subrange(1 + n1 as int, s.len() as int));
        assert(r2.rest() =~= s.subrange(1 + n1 as int, s.len() as int));
    }
    let map_md5 = match reader.read_str() {
        Some(v) => v,
        None => return None,
    };
    let ghost r3 = *reader;
    let ghost n2 = (r3.pos() - r2.pos()) as nat;
    proof {
        crate::codec::lemma_osu_string_read_len(r2.rest());
        crate::reader::lemma_advanced_rest(&r2, &r3, n2);
        assert(r3.rest() =~= s.subrange(1 + n1 + n2 as int, s.len() as int));
    }
    let mods: u32 = match reader.read_int() {
        Some(v) => v,
        None => return None,
    };
    let ghost r4 = *reader;
    proof {
        crate::reader::lemma_advanced_rest(&r3, &r4, 4);
        assert(r4.rest() =~= s.subrange(1 + n1 + n2 + 4 as int, s.len() as int));
    }
    let mode: u8 = match reader.read_int() {
        Some(v) => v,
        None => return None,
    };
    let ghost r5 = *reader;
    proof {
        crate::reader::lemma_advanced_rest(&r4, &r5, 1);
        assert(r5.rest() =~= s.subrange(1 + n1 + n2 + 5 as int, s.len() as int));
    }
    let map_id: i32 = match reader.read_int() {
        Some(v) => v,
        None => return None,
    };
    user.action = match Action::from_u8(action_id) {
        Some(a) => a,
        None => Action::Unknown,
    };
    user.info_text = action_info;
    user.map_md5 = map_md5;
    user.mods = Mods::from_value(mods as i32);
    match Mode::from_mods(mode as i32, mods as i32) {
        Some(m) => {
            user.current_mode = m;
        },
        None => {},
    }
    user.map_id = map_id;
    if !user.restricted() {
        let p = user_stats(user);
        players.enqueue(p.as_slice());
        user.enqueue(p.as_slice());
    }
    Some(false)
}

/// `new` is `old` with `host` at index `i`, every other session whose id
/// `ids` holds having `extra` queued, and nothing else changed.
pub open spec fn host_and_notified(
    old: Seq<User>,
    new: Seq<User>,
    i: int,
    host: User,
    ids: Seq<i32>,
    extra: Seq<u8>,
) -> bool {
    &&& 0 <= i < old.len()
    &&& new.len() == old.len()
    &&& new[i] == host
    &&& all_queued(old.remove(i), new.remove(i), ids, extra)
}

/// The effect of `user` stopping to spectate: it spectates no one; a
/// registered host drops it from its spectators and is told, and the
/// remaining spectators are told.
pub open spec fn stop_effect(players: Seq<User>, user: User, players2: Seq<User>, user2: User) -> bool {
    &&& user2 == (User { spectating: None, ..user })
    &&& match user.spectating {
        Some(h) => if h != user.id && first_index(players, id_is(h)) >= 0 {
            let i = first_index(players, id_is(h));
            let host = players[i];
            let remaining = remove_first(host.spectators@, user.id);
            &&& host_and_notified(
                players,
                players2,
                i,
                players2[i],
                remaining,
                packet_bytes(Packets::CHO_FELLOW_SPECTATOR_LEFT, le_of(user.id)),
            )
            &&& players2[i].spectators@ == remaining
            &&& queued(
                User { spectators: players2[i].spectators, ..host },
                players2[i],
                packet_bytes(Packets::CHO_SPECTATOR_LEFT, le_of(user.id)),
            )
        } else {
            players2 == players
        },
        None => players2 == players,
    }
}

/// The effect of `user` joining the spectators of the registered session
/// `target`: the spectators already there and `user` learn of each other,
/// the host lists `user` and is told, and `user` spectates the host.
pub open spec fn join_effect(
    players: Seq<User>,
    user: User,
    players2: Seq<User>,
    user2: User,
    target: i32,
) -> bool {
    let i = first_index(players, id_is(target));
    let host = players[i];
    &&& host_and_notified(
        players,
        players2,
        i,
        players2[i],
        host.spectators@,
        packet_bytes(Packets::CHO_FELLOW_SPECTATOR_JOINED, le_of(user.id)),
    )
    &&& players2[i].spectators@ == (if host.spectators@.contains(user.id) {
        host.spectators@
    } else {
        host.spectators@.push(user.id)
    })
    &&& queued(
        User { spectators: players2[i].spectators, ..host },
        players2[i],
        packet_bytes(Packets::CHO_SPECTATOR_JOINED, le_of(user.id)),
    )
    &&& user2.spectating == Some(target)
    &&& user2.queue@ == user.queue@ + crate::server::joined_notices(host.spectators@)
    &&& user2 == (User { spectating: user2.spectating, queue: user2.queue, ..user })
}

/// Starting to spectate `target`: first stopping, then joining.
pub open spec fn start_effect(
    players: Seq<User>,
    user: User,
    players2: Seq<User>,
    user2: User,
    target: i32,
) -> bool {
    exists|mid: Seq<User>, u: User|
        #[trigger] stop_effect(players, user, mid, u) && join_effect(mid, u, players2, user2, target)
}

/// Starts the caller spectating the target: the two reserved ids, the caller
/// itself and unregistered ids are ignored; a session already spectating
/// stops first.
pub fn start_spectating(players: &mut PlayerList, user: &mut User, reader: &mut Reader) -> (r:
    Option<bool>)
    requires
        old(players).wf(),
        !old(players).registered(old(user).id),
    ensures
        final(players).wf(),
        same_ids(old(players).sessions(), final(players).sessions()),
        final(user).id == old(user).id,
        old(reader).rest().len() < 4 ==> r is None && old(reader).advanced(final(reader), 0)
            && *final(user) == *old(user) && *final(players) == *old(players),
        old(reader).rest().len() >= 4 ==> {
            let target = int_at::<i32>(old(reader).rest());
            &&& r == Some(false)
            &&& old(reader).advanced(final(reader), 4)
            &&& if target == 999 || target == 1 || target == old(user).id || !old(
                players,
            ).registered(target) {
                *final(user) == *old(user) && *final(players) == *old(players)
            } else {
                &&& start_effect(
                    old(players).sessions(),
                    *old(user),
                    final(players).sessions(),
                    *final(user),
                    target,
                )
                &&& final(user).spectating == Some(target)
                &&& final(players).registered(target)
                &&& final(players).sessions()[final(players).index_of(
                    target,
                )].spectators@.contains(old(user).id)
                &&& *final(user) == (User {
                    spectating: final(user).spectating,
                    queue: final(user).queue,
                    ..*old(user)
                })
            }
        },
{
    let target: i32 = match reader.read_int() {
        Some(t) => t,
        None => return None,
    };
    if target == 999 || target == 1 || target == user.id {
        return Some(false);
    }
    let idx = match players.get_id(target) {
        Some(i) => i,
        None => return Some(false),
    };
    let ghost initial = *players;
    let ghost initial_user = *user;
    stop_spectating(players, user);
    proof {
        crate::server::lemma_same_ids_index(initial, *players, target);
    }
    let ghost before_take = *players;
    let ghost mid_user = *user;
    let mut host = players.take(idx);
    let ghost taken = *players;
    proof {
        taken.lemma_index_of(target);
        assert forall|k: int| 0 <= k < taken.sessions().len() implies #[trigger] taken.sessions()[k].id
            != target by {
            if k < idx {
                assert(taken.sessions()[k] == before_take.sessions()[k]);
            } else {
                assert(taken.sessions()[k] == before_take.sessions()[k + 1]);
            }
        }
    }
    let ghost old_specs = host.spectators@;
    let ghost uid = user.id;
    host.add_spectator(user, players);
    let ghost notified = *players;
    proof {
        crate::server::lemma_all_queued_same_ids(
            taken.sessions(),
            notified.sessions(),
            old_specs,
            packet_bytes(Packets::CHO_FELLOW_SPECTATOR_JOINED, le_of(uid)),
        );
        crate::server::lemma_same_ids_index(taken, notified, target);
    }
    let ghost new_host = host;
    players.restore(idx, host);
    proof {
        assert(same_ids(before_take.sessions(), players.sessions()));
        crate::server::lemma_same_ids_index(before_take, *players, target);
        assert(players.sessions()[idx as int] == new_host);
        if !old_specs.contains(uid) {
            assert(old_specs.push(uid)[old_specs.len() as int] == uid);
        }
        assert(new_host.spectators@.contains(uid));
        assert(players.index_of(target) == idx);
        assert(user.spectating == Some(target));
        let fin = players.sessions();
        before_take.lemma_index_of(target);
        assert(fin.remove(idx as int) =~= notified.sessions());
        assert(taken.sessions() =~= before_take.sessions().remove(idx as int));
        assert(join_effect(before_take.sessions(), mid_user, fin, *user, target));
        assert(stop_effect(initial.sessions(), initial_user, before_take.sessions(), mid_user));
    }
    Some(false)
}

/// Stops the caller spectating; nothing happens when it spectates no one.
pub fn stop_spectating(players: &mut PlayerList, user: &mut User) -> (r: bool)
    requires
        old(players).wf(),
        !old(players).registered(old(user).id),
    ensures
        r,
        final(players).wf(),
        same_ids(old(players).sessions(), final(players).sessions()),
        *final(user) == (User { spectating: None, ..*old(user) }),
        stop_effect(old(players).sessions(), *old(user), final(players).sessions(), *final(user)),
        match old(user).spectating {
            None => *final(players) == *old(players),
            Some(h) => if h != old(user).id && old(players).registered(h) {
                &&& final(players).sessions()[old(players).index_of(h)].spectators@ == remove_first(
                    old(players).sessions()[old(players).index_of(h)].spectators@,
                    old(user).id,
                )
                &&& old(players).sessions()[old(
                    players,
                ).index_of(h)].spectators@.no_duplicates() ==> !final(players).sessions()[old(
                    players,
                ).index_of(h)].spectators@.contains(old(user).id)
            } else {
                *final(players) == *old(players)
            },
        },
{
    let h = match user.spectating {
        None => return true,
        Some(h) => h,
    };
    if h == user.id {
        user.spectating = None;
        return true;
    }
    let idx = match players.get_id(h) {
        Some(i) => i,
        None => {
            user.spectating = None;
            return true;
        },
    };
    let ghost before_take = *players;
    let mut host = players.take(idx);
    let ghost taken = *players;
    proof {
        taken.lemma_index_of(h);
        assert forall|k: int| 0 <= k < taken.sessions().len() implies #[trigger] taken.sessions()[k].id != h by {
            if k < idx {
                assert(taken.sessions()[k] == before_take.sessions()[k]);
            } else {
                assert(taken.sessions()[k] == before_take.sessions()[k + 1]);
            }
        }
    }
    host.remove_spectator(user, players);
    let ghost notified = *players;
    proof {
        crate::server::lemma_all_queued_same_ids(
            taken.sessions(),
            notified.sessions(),
            host.spectators@,
            packet_bytes(Packets::CHO_FELLOW_SPECTATOR_LEFT, le_of(user.id)),
        );
        crate::server::lemma_same_ids_index(taken, notified, h);
    }
    let ghost uid = user.id;
    let ghost old_specs = before_take.sessions()[idx as int].spectators@;
    let ghost new_host = host;
    players.restore(idx, host);
    proof {
        assert(same_ids(before_take.sessions(), players.sessions()));
        before_take.lemma_index_of(h);
        assert(players.sessions().remove(idx as int) =~= notified.sessions());
        assert(taken.sessions() =~= before_take.sessions().remove(idx as int));
        assert(players.sessions()[idx as int] == new_host);
        if old_specs.no_duplicates() {
            crate::session::lemma_remove_first_clears(old_specs, uid);
        }
    }
    true
}

/// Passes the caller's spectator frames, the whole payload, to every session,
/// its own included.
pub fn user_spectate_frames(players: &mut PlayerList, user: &mut User, reader: &mut Reader, len: u32) -> (r:
    Option<bool>)
    requires
        old(players).wf(),
    ensures
        final(players).wf(),
        len > old(reader).rest().len() ==> r is None && old(reader).advanced(final(reader), 0)
            && *final(user) == *old(user) && *final(players) == *old(players),
        len <= old(reader).rest().len() ==> {
            let frames = packet_bytes(
                Packets::OSU_SPECTATE_FRAMES,
                old(reader).rest().subrange(0, len as int),
            );
            &&& r == Some(false)
            &&& old(reader).advanced(final(reader), len as nat)
            &&& old(players).broadcast_to(final(players), frames)
            &&& queued(*old(user), *final(user), frames)
        },
{
    let frames = match reader.read_raw(len as usize) {
        Some(f) => f,
        None => return None,
    };
    let p = spectate_frames(frames);
    players.enqueue(p.as_slice());
    user.enqueue(p.as_slice());
    Some(false)
}

} // verus!
