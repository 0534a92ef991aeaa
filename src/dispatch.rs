//! Routing of inbound frames to their handlers, and the per-request loop.
use vstd::prelude::*;

use crate::codec::{header_read, lemma_i32_list_read_len, HEADER_LEN};
use crate::constants::Packets;
use crate::handlers::{
    add_friend, change_action, full_presence, ping, presence_request, remove_friend,
    start_spectating, stats_request, status_update, stop_spectating,
    user_spectate_frames,
};
use crate::packets::{packet_bytes, server_restart, le_of};
use crate::channel::Channel;
use crate::codec::{i32_list_read, Readable};
use crate::handlers::{
    action_of, int_at, mode_after, presence_of, presence_replies, public_presences, start_effect,
    stats_of, status_read, stop_effect,
};
use crate::players::{everyone_queued, first_index, id_is, queued, token_is};
use crate::session::{remove_first, without};
use crate::status::Mods;
use crate::reader::Reader;
use crate::server::{
    lemma_broadcast_same_ids, lemma_same_ids_index, lemma_same_ids_refl, lemma_same_ids_trans,
    same_ids, Server,
};
use crate::session::{StoreOp, User};


verus! {

/// The packet handlers.
#[derive(Clone, Copy, Debug, PartialEq, Eq, Structural)]
pub enum Handler {
    Ping,
    StatusUpdate,
    StatsRequest,
    PresenceRequest,
    FullPresence,
    AddFriend,
    RemoveFriend,
    Logout,
    ChangeAction,
    StartSpectating,
    StopSpectating,
    SpectateFrames,
}

/// The one table of handlers: for each packet type that has one, its
/// handler and whether restricted sessions may use it.
pub open spec fn spec_handler_for(p: Packets) -> Option<(Handler, bool)> {
    match p {
        Packets::OSU_PING => Some((Handler::Ping, true)),
        Packets::OSU_REQUEST_STATUS_UPDATE => Some((Handler::StatusUpdate, true)),
        Packets::OSU_USER_STATS_REQUEST => Some((Handler::StatsRequest, true)),
        Packets::OSU_USER_PRESENCE_REQUEST => Some((Handler::PresenceRequest, true)),
        Packets::OSU_USER_PRESENCE_REQUEST_ALL => Some((Handler::FullPresence, true)),
        Packets::OSU_FRIEND_ADD => Some((Handler::AddFriend, true)),
        Packets::OSU_FRIEND_REMOVE => Some((Handler::RemoveFriend, true)),
        Packets::OSU_LOGOUT => Some((Handler::Logout, true)),
        Packets::OSU_CHANGE_ACTION => Some((Handler::ChangeAction, true)),
        Packets::OSU_START_SPECTATING => Some((Handler::StartSpectating, false)),
        Packets::OSU_STOP_SPECTATING => Some((Handler::StopSpectating, false)),
        Packets::OSU_SPECTATE_FRAMES => Some((Handler::SpectateFrames, false)),
        _ => None,
    }
}

/// The table entry of a packet type.
pub fn handler_for(p: Packets) -> (r: Option<(Handler, bool)>)
    ensures
        r == spec_handler_for(p),
{
    match p {
        Packets::OSU_PING => Some((Handler::Ping, true)),
        Packets::OSU_REQUEST_STATUS_UPDATE => Some((Handler::StatusUpdate, true)),
        Packets::OSU_USER_STATS_REQUEST => Some((Handler::StatsRequest, true)),
        Packets::OSU_USER_PRESENCE_REQUEST => Some((Handler::PresenceRequest, true)),
        Packets::OSU_USER_PRESENCE_REQUEST_ALL => Some((Handler::FullPresence, true)),
        Packets::OSU_FRIEND_ADD => Some((Handler::AddFriend, true)),
        Packets::OSU_FRIEND_REMOVE => Some((Handler::RemoveFriend, true)),
        Packets::OSU_LOGOUT => Some((Handler::Logout, true)),
        Packets::OSU_CHANGE_ACTION => Some((Handler::ChangeAction, true)),
        Packets::OSU_START_SPECTATING => Some((Handler::StartSpectating, false)),
        Packets::OSU_STOP_SPECTATING => Some((Handler::StopSpectating, false)),
        Packets::OSU_SPECTATE_FRAMES => Some((Handler::SpectateFrames, false)),
        _ => None,
    }
}

/// The handler that a packet id reaches: the full table for a session that
/// is not restricted, its restricted part otherwise.
pub open spec fn spec_lookup(id: i32, restricted: bool) -> Option<Handler> {
    let p = if 0 <= id <= u16::MAX {
        Packets::spec_from_id(id as u16)
    } else {
        None
    };
    match p {
        Some(p) => match spec_handler_for(p) {
            Some((h, allowed)) => if allowed || !restricted {
                Some(h)
            } else {
                None
            },
            None => None,
        },
        None => None,
    }
}

/// The handler that packet `id` reaches for a session, restricted or not.
pub fn lookup(id: i32, restricted: bool) -> (r: Option<Handler>)
    ensures
        r == spec_lookup(id, restricted),
{
    match Packets::from_i32(id) {
        Some(p) => match handler_for(p) {
            Some((h, allowed)) => if allowed || !restricted {
                Some(h)
            } else {
                None
            },
            None => None,
        },
        None => None,
    }
}

/// What a request works on: the other sessions, the channels, the caller and
/// the store changes so far.
pub type Snapshot = (Seq<User>, Seq<Channel>, User, Seq<StoreOp>);

/// A payload of `len` bytes at the front of `body` skipped: `used` bytes on,
/// or malformed when fewer are there.
pub open spec fn skipped(len: u32, body: Seq<u8>, out: Outcome, used: nat) -> bool {
    if len <= body.len() {
        out == Outcome::Next && used == len
    } else {
        out == Outcome::Malformed
    }
}

/// Only the caller changed, by getting `extra` queued.
pub open spec fn caller_got(a: Snapshot, b: Snapshot, extra: Seq<u8>) -> bool {
    &&& b.0 == a.0
    &&& b.1 == a.1
    &&& b.3 == a.3
    &&& queued(a.2, b.2, extra)
}

/// The effect of a logout of `id` on the sessions and channels: out of every
/// channel, and unless restricted every session is told.
pub open spec fn logout_effect(a: Snapshot, b: Snapshot) -> bool {
    let id = a.2.id;
    &&& b.2 == a.2
    &&& b.3 == a.3
    &&& b.1.len() == a.1.len()
    &&& forall|k: int|
        0 <= k < a.1.len() ==> (#[trigger] b.1[k]).users@ == without(a.1[k].users@, id) && b.1[k]
            == (Channel { users: b.1[k].users, ..a.1[k] })
    &&& if a.2.spec_restricted() {
        b.0 == a.0
    } else {
        everyone_queued(a.0, b.0, packet_bytes(Packets::CHO_USER_LOGOUT, le_of(id) + le_of(0u8)))
    }
}

/// What handler `h` does with the payload `body` (of declared length `len`),
/// from `a` to `b`: how it ends, and the bytes it moved on when it goes on.
pub open spec fn handler_step(
    h: Handler,
    a: Snapshot,
    b: Snapshot,
    len: u32,
    body: Seq<u8>,
    out: Outcome,
    used: nat,
) -> bool {
    let user = a.2;
    match h {
        Handler::Ping => caller_got(a, b, packet_bytes(Packets::CHO_PONG, Seq::empty())) && skipped(
            len,
            body,
            out,
            used,
        ),
        Handler::StatusUpdate => caller_got(a, b, stats_of(user)) && skipped(len, body, out, used),
        Handler::StatsRequest => match i32_list_read(body) {
            Some((ids, n)) => out == Outcome::Next && used == n && caller_got(
                a,
                b,
                presence_replies(a.0, user, ids, true),
            ),
            None => out == Outcome::Malformed && b == a,
        },
        Handler::PresenceRequest => match i32_list_read(body) {
            Some((ids, n)) => out == Outcome::Next && used == n && caller_got(
                a,
                b,
                presence_replies(a.0, user, ids, false),
            ),
            None => out == Outcome::Malformed && b == a,
        },
        Handler::FullPresence => caller_got(
            a,
            b,
            public_presences(a.0) + if user.spec_restricted() {
                Seq::empty()
            } else {
                presence_of(user)
            },
        ) && skipped(len, body, out, used),
        Handler::AddFriend => if body.len() < 4 {
            out == Outcome::Malformed && b == a
        } else {
            let target = int_at::<i32>(body);
            &&& out == Outcome::Next
            &&& used == 4
            &&& b.0 == a.0
            &&& b.1 == a.1
            &&& if user.friends@.contains(target) {
                b.2 == user && b.3 == a.3
            } else {
                &&& b.2.friends@ == user.friends@.push(target)
                &&& b.2 == (User { friends: b.2.friends, ..user })
                &&& b.3 == a.3.push(StoreOp::AddFriend { user: user.id, target: target })
            }
        },
        Handler::RemoveFriend => if body.len() < 4 {
            out == Outcome::Malformed && b == a
        } else {
            let target = int_at::<i32>(body);
            &&& out == Outcome::Next
            &&& used == 4
            &&& b.0 == a.0
            &&& b.1 == a.1
            &&& if user.friends@.contains(target) {
                &&& b.2.friends@ == remove_first(user.friends@, target)
                &&& b.2 == (User { friends: b.2.friends, ..user })
                &&& b.3 == a.3.push(StoreOp::RemoveFriend { user: user.id, target: target })
            } else {
                b.2 == user && b.3 == a.3
            }
        },
        Handler::Logout => out == Outcome::LoggedOut && logout_effect(a, b),
        Handler::ChangeAction => match status_read(body) {
            None => out == Outcome::Malformed && b == a,
            Some((act, info, md5, mods, mode, map_id, n)) => {
                &&& out == Outcome::Next
                &&& used == n
                &&& b.1 == a.1
                &&& b.3 == a.3
                &&& b.2.info_text@ == info
                &&& b.2.map_md5@ == md5
                &&& b.2 == (User {
                    action: action_of(act),
                    info_text: b.2.info_text,
                    map_md5: b.2.map_md5,
                    mods: Mods { bits: mods as i32 },
                    current_mode: mode_after(user.current_mode, mode, mods),
                    map_id: map_id,
                    queue: b.2.queue,
                    ..user
                })
                &&& if user.spec_restricted() {
                    b.2.queue@ == user.queue@ && b.0 == a.0
                } else {
                    b.2.queue@ == user.queue@ + stats_of(b.2) && everyone_queued(
                        a.0,
                        b.0,
                        stats_of(b.2),
                    )
                }
            },
        },
        Handler::StartSpectating => if body.len() < 4 {
            out == Outcome::Malformed && b == a
        } else {
            let target = int_at::<i32>(body);
            &&& out == Outcome::Next
            &&& used == 4
            &&& b.1 == a.1
            &&& b.3 == a.3
            &&& if target == 999 || target == 1 || target == user.id || first_index(
                a.0,
                id_is(target),
            ) < 0 {
                b.0 == a.0 && b.2 == user
            } else {
                start_effect(a.0, user, b.0, b.2, target)
            }
        },
        Handler::StopSpectating => b.1 == a.1 && b.3 == a.3 && stop_effect(a.0, user, b.0, b.2)
            && skipped(len, body, out, used),
        Handler::SpectateFrames => if len <= body.len() {
            let frames = packet_bytes(Packets::OSU_SPECTATE_FRAMES, body.subrange(0, len as int));
            &&& out == Outcome::Next
            &&& used == len
            &&& b.1 == a.1
            &&& b.3 == a.3
            &&& everyone_queued(a.0, b.0, frames)
            &&& queued(user, b.2, frames)
        } else {
            out == Outcome::Malformed && b == a
        },
    }
}

/// What packet `id` does for the caller of `a`: unknown packets, and packets
/// outside a restricted session's part of the table, are skipped whole and
/// change nothing.
pub open spec fn dispatch_step(
    id: i32,
    len: u32,
    a: Snapshot,
    b: Snapshot,
    body: Seq<u8>,
    out: Outcome,
    used: nat,
) -> bool {
    match spec_lookup(id, a.2.spec_restricted()) {
        None => b == a && skipped(len, body, out, used),
        Some(h) => handler_step(h, a, b, len, body, out, used),
    }
}

/// One frame at the front of `rest`: a header cut short is malformed and
/// changes nothing; else the frame's packet is dispatched after the header.
pub open spec fn frame_step(a: Snapshot, b: Snapshot, rest: Seq<u8>, out: Outcome, used: nat) -> bool {
    match header_read(rest) {
        None => out == Outcome::Malformed && b == a,
        Some((pid, plen)) => {
            &&& out == Outcome::Next ==> used >= HEADER_LEN
            &&& dispatch_step(
                pid as i32,
                plen,
                a,
                b,
                rest.subrange(HEADER_LEN as int, rest.len() as int),
                out,
                (used - HEADER_LEN) as nat,
            )
        },
    }
}

/// Step `k` of a run: it starts at `offsets[k]`, inside `data`, takes the
/// frame there from `trace[k]` to `trace[k + 1]` and ends as `outs[k]`.
pub open spec fn step_ok(
    trace: Seq<Snapshot>,
    offsets: Seq<nat>,
    outs: Seq<Outcome>,
    data: Seq<u8>,
    k: int,
) -> bool {
    &&& offsets[k] < data.len()
    &&& outs[k] == Outcome::Next ==> offsets[k] < offsets[k + 1]
    &&& frame_step(
        trace[k],
        trace[k + 1],
        data.subrange(offsets[k] as int, data.len() as int),
        outs[k],
        (offsets[k + 1] - offsets[k]) as nat,
    )
}

/// `trace` records frames processed from `data` in turn.
pub open spec fn run_steps(
    trace: Seq<Snapshot>,
    offsets: Seq<nat>,
    outs: Seq<Outcome>,
    data: Seq<u8>,
) -> bool {
    &&& trace.len() == offsets.len()
    &&& outs.len() + 1 == trace.len()
    &&& offsets[0] == 0
    &&& forall|k: int| 0 <= k < outs.len() ==> #[trigger] step_ok(trace, offsets, outs, data, k)
}

/// A whole run of the request loop over `data`: every step but the last goes
/// on, and the run ends at a step that stops it or at the end of the data.
pub open spec fn request_run(
    trace: Seq<Snapshot>,
    offsets: Seq<nat>,
    outs: Seq<Outcome>,
    data: Seq<u8>,
) -> bool {
    &&& run_steps(trace, offsets, outs, data)
    &&& forall|k: int| #![trigger outs[k]] 0 <= k < outs.len() - 1 ==> outs[k] == Outcome::Next
    &&& (outs.len() == 0 || outs.last() == Outcome::Next) ==> offsets.last() >= data.len()
}

/// The end of a request found by its token: `trace` starts from the registry
/// without the session at `i`, that session and no store changes; the reply
/// is the caller's queue at the end of the run, the store changes and
/// channels are those of the run, and the session, its queue drained, is back
/// at `i` unless it logged out.
pub open spec fn request_outcome(
    before: Seq<User>,
    channels: Seq<Channel>,
    i: int,
    trace: Seq<Snapshot>,
    outs: Seq<Outcome>,
    reply: Seq<u8>,
    stored: Seq<StoreOp>,
    after: Seq<User>,
    channels_after: Seq<Channel>,
) -> bool {
    let last = trace.last();
    &&& trace[0] == (before.remove(i), channels, before[i], Seq::<StoreOp>::empty())
    &&& reply == last.2.queue@
    &&& stored == last.3
    &&& channels_after == last.1
    &&& if outs.len() > 0 && outs.last() == Outcome::LoggedOut {
        after == last.0
    } else {
        &&& 0 <= i < after.len()
        &&& after == last.0.insert(i, after[i])
        &&& after[i] == (User { queue: after[i].queue, ..last.2 })
        &&& after[i].queue@ == Seq::<u8>::empty()
    }
}

/// How processing one frame ended.
#[derive(Clone, Copy, Debug, PartialEq, Eq, Structural)]
pub enum Outcome {
    /// Go on with the next frame.
    Next,
    /// The session logged out; nothing more is processed.
    LoggedOut,
    /// The frame runs past the end of the buffer; the request stops here.
    Malformed,
}

/// Skips a payload of `len` bytes; malformed when fewer are left.
fn skip(reader: &mut Reader, len: u32) -> (r: Outcome)
    ensures
        len <= old(reader).rest().len() ==> r == Outcome::Next && old(reader).advanced(
            final(reader),
            len as nat,
        ),
        len > old(reader).rest().len() ==> r == Outcome::Malformed && old(reader).advanced(
            final(reader),
            0,
        ),
{
    if len as usize <= reader.remaining() {
        reader.incr_offset(len as usize);
        Outcome::Next
    } else {
        Outcome::Malformed
    }
}

/// The cursor has moved forward and stays within the buffer.
pub open spec fn moved_within(a: Reader, b: Reader) -> bool {
    &&& b.bytes() == a.bytes()
    &&& a.pos() <= b.pos() <= b.bytes().len()
}

/// Runs the handler of packet `id`, with a payload of `len` bytes at the
/// cursor, for the session `user`, held apart from the registry. A packet
/// without a handler for this session (unknown, or not for restricted
/// sessions) is skipped whole and changes nothing else.
pub fn dispatch(
    server: &mut Server,
    user: &mut User,
    reader: &mut Reader,
    id: i32,
    len: u32,
    ops: &mut Vec<StoreOp>,
) -> (r: Outcome)
    requires
        old(server).wf(),
        !old(server).players.registered(old(user).id),
        old(reader).pos() <= old(reader).bytes().len(),
    ensures
        final(server).wf(),
        !final(server).players.registered(final(user).id),
        final(user).id == old(user).id,
        final(user).token == old(user).token,
        r != Outcome::LoggedOut ==> same_ids(
            old(server).players.sessions(),
            final(server).players.sessions(),
        ),
        r == Outcome::LoggedOut ==> final(server).players.sessions().len() == old(
            server,
        ).players.sessions().len(),
        final(reader).bytes() == old(reader).bytes(),
        r != Outcome::Malformed ==> moved_within(*old(reader), *final(reader)),
        dispatch_step(
            id,
            len,
            (old(server).players.sessions(), old(server).channels@, *old(user), old(ops)@),
            (final(server).players.sessions(), final(server).channels@, *final(user), final(ops)@),
            old(reader).rest(),
            r,
            (final(reader).pos() - old(reader).pos()) as nat,
        ),
        spec_lookup(id, old(user).spec_restricted()) is None ==> {
            &&& *final(server) == *old(server)
            &&& *final(user) == *old(user)
            &&& final(ops)@ == old(ops)@
            &&& if len <= old(reader).rest().len() {
                r == Outcome::Next && old(reader).advanced(final(reader), len as nat)
            } else {
                r == Outcome::Malformed && old(reader).advanced(final(reader), 0)
            }
        },
        spec_lookup(id, old(user).spec_restricted()) == Some(Handler::Ping) ==> {
            &&& *final(server) == *old(server)
            &&& queued(*old(user), *final(user), packet_bytes(Packets::CHO_PONG, Seq::empty()))
            &&& final(ops)@ == old(ops)@
            &&& len <= old(reader).rest().len() ==> r == Outcome::Next && old(reader).advanced(
                final(reader),
                len as nat,
            )
        },
        spec_lookup(id, old(user).spec_restricted()) == Some(Handler::Logout) ==> r
            == Outcome::LoggedOut,
{
    let ghost r0 = *reader;
    let ghost initial = server.players;
    proof {
        lemma_same_ids_refl(initial.sessions());
    }
    let handler = match lookup(id, user.restricted()) {
        None => return skip(reader, len),
        Some(h) => h,
    };
    proof {
        lemma_i32_list_read_len(r0.rest());
    }
    let result: Option<bool> = match handler {
        Handler::Ping => Some(ping(user)),
        Handler::StatusUpdate => Some(status_update(user)),
        Handler::StatsRequest => stats_request(&server.players, user, reader),
        Handler::PresenceRequest => presence_request(&server.players, user, reader),
        Handler::FullPresence => Some(full_presence(&server.players, user)),
        Handler::AddFriend => add_friend(user, reader, ops),
        Handler::RemoveFriend => remove_friend(user, reader, ops),
        Handler::Logout => {
            user.logout(server);
            return Outcome::LoggedOut;
        },
        Handler::ChangeAction => {
            let res = change_action(&mut server.players, user, reader);
            proof {
                if res is Some && !old(user).spec_restricted() {
                    lemma_broadcast_same_ids(initial, server.players, crate::handlers::stats_of(*user));
                    lemma_same_ids_index(initial, server.players, user.id);
                }
                if res is None || old(user).spec_restricted() {
                    lemma_same_ids_refl(initial.sessions());
                }
            }
            res
        },
        Handler::StartSpectating => {
            let res = start_spectating(&mut server.players, user, reader);
            proof {
                lemma_same_ids_index(initial, server.players, user.id);
            }
            res
        },
        Handler::StopSpectating => {
            let res = stop_spectating(&mut server.players, user);
            proof {
                lemma_same_ids_index(initial, server.players, user.id);
            }
            Some(res)
        },
        Handler::SpectateFrames => {
            let res = user_spectate_frames(&mut server.players, user, reader, len);
            proof {
                if res is None {
                    lemma_same_ids_refl(initial.sessions());
                }
                if res is Some {
                    lemma_broadcast_same_ids(
                        initial,
                        server.players,
                        packet_bytes(
                            Packets::OSU_SPECTATE_FRAMES,
                            r0.rest().subrange(0, len as int),
                        ),
                    );
                    lemma_same_ids_index(initial, server.players, user.id);
                }
            }
            res
        },
    };
    match result {
        None => Outcome::Malformed,
        Some(true) => skip(reader, len),
        Some(false) => Outcome::Next,
    }
}

/// Reads one frame header and dispatches the frame.
pub fn process_frame(server: &mut Server, user: &mut User, reader: &mut Reader, ops: &mut Vec<StoreOp>) -> (r:
    Outcome)
    requires
        old(server).wf(),
        !old(server).players.registered(old(user).id),
        old(reader).pos() <= old(reader).bytes().len(),
    ensures
        final(server).wf(),
        !final(server).players.registered(final(user).id),
        final(user).id == old(user).id,
        final(user).token == old(user).token,
        r != Outcome::LoggedOut ==> same_ids(
            old(server).players.sessions(),
            final(server).players.sessions(),
        ),
        r == Outcome::LoggedOut ==> final(server).players.sessions().len() == old(
            server,
        ).players.sessions().len(),
        final(reader).bytes() == old(reader).bytes(),
        r != Outcome::Malformed ==> moved_within(*old(reader), *final(reader)),
        r == Outcome::Next ==> final(reader).pos() > old(reader).pos(),
        frame_step(
            (old(server).players.sessions(), old(server).channels@, *old(user), old(ops)@),
            (final(server).players.sessions(), final(server).channels@, *final(user), final(ops)@),
            old(reader).rest(),
            r,
            (final(reader).pos() - old(reader).pos()) as nat,
        ),
        header_read(old(reader).rest()) is None ==> r == Outcome::Malformed,
        header_read(old(reader).rest()) matches Some((pid, plen)) ==> {
            spec_lookup(pid as i32, old(user).spec_restricted()) is None
                && HEADER_LEN + plen <= old(reader).rest().len() ==> {
                &&& r == Outcome::Next
                &&& old(reader).advanced(final(reader), (HEADER_LEN + plen) as nat)
                &&& *final(server) == *old(server)
                &&& *final(user) == *old(user)
                &&& final(ops)@ == old(ops)@
            }
        },
{
    let ghost r0 = *reader;
    let (id, len) = match reader.read_header() {
        Some(h) => h,
        None => return Outcome::Malformed,
    };
    proof {
        crate::reader::lemma_advanced_rest(&r0, reader, HEADER_LEN as nat);
    }
    dispatch(server, user, reader, id, len, ops)
}

/// One request of the session holding `token`, whose frames are `data`: each
/// frame is handled in turn, until the buffer ends, the session logs out or a
/// frame runs past the end; then the session's queue is drained into the
/// reply. The second result holds the friendship changes to persist. An
/// unknown token gets a restart packet, telling the client to log in again.
pub fn handle_request(server: &mut Server, token: &str, data: Vec<u8>) -> (r: (Vec<u8>, Vec<StoreOp>))
    requires
        old(server).wf(),
    ensures
        final(server).wf(),
        first_index(old(server).players.sessions(), token_is(token@)) < 0 ==> {
            &&& r.0@ == packet_bytes(Packets::CHO_RESTART, le_of(0i32))
            &&& r.1@ == Seq::<StoreOp>::empty()
            &&& *final(server) == *old(server)
        },
        first_index(old(server).players.sessions(), token_is(token@)) >= 0 ==> {
            let i = first_index(old(server).players.sessions(), token_is(token@));
            let before = old(server).players.sessions();
            let after = final(server).players.sessions();
            ||| {
                &&& after.len() == before.len()
                &&& after[i].id == before[i].id
                &&& after[i].token@ == token@
                &&& after[i].queue@ == Seq::<u8>::empty()
            }
            ||| {
                &&& after.len() + 1 == before.len()
                &&& !final(server).players.registered(before[i].id)
            }
        },
        first_index(old(server).players.sessions(), token_is(token@)) >= 0 ==> exists|
            trace: Seq<Snapshot>,
            offsets: Seq<nat>,
            outs: Seq<Outcome>,
        |
            #[trigger] request_run(trace, offsets, outs, data@) && request_outcome(
                old(server).players.sessions(),
                old(server).channels@,
                first_index(old(server).players.sessions(), token_is(token@)),
                trace,
                outs,
                r.0@,
                r.1@,
                final(server).players.sessions(),
                final(server).channels@,
            ),
{
    let idx = match server.players.get_token(token) {
        Some(i) => i,
        None => return (server_restart(0), Vec::new()),
    };
    let mut user = server.players.take(idx);
    proof {
        let s = server.players.sessions();
        server.players.lemma_index_of(user.id);
        assert forall|k: int| 0 <= k < s.len() implies #[trigger] s[k].id != user.id by {
            if k < idx {
                assert(s[k] == old(server).players.sessions()[k]);
            } else {
                assert(s[k] == old(server).players.sessions()[k + 1]);
            }
        }
    }
    let ghost d = data@;
    let mut reader = Reader::new(data);
    let mut ops: Vec<StoreOp> = Vec::new();
    let mut online = true;
    let ghost taken = server.players.sessions();
    let ghost start: Snapshot = (server.players.sessions(), server.channels@, user, ops@);
    let ghost mut trace: Seq<Snapshot> = seq![start];
    let ghost mut offsets: Seq<nat> = seq![0nat];
    let ghost mut outs: Seq<Outcome> = Seq::empty();
    proof {
        assert(start.3 =~= Seq::<StoreOp>::empty());
        assert(taken =~= old(server).players.sessions().remove(idx as int));
    }
    let ghost id0 = user.id;
    let ghost token0 = user.token;
    proof {
        lemma_same_ids_refl(taken);
    }
    while !reader.empty()
        invariant_except_break
            reader.pos() <= reader.bytes().len(),
            online,
            forall|k: int| #![trigger outs[k]] 0 <= k < outs.len() ==> outs[k] == Outcome::Next,
        invariant
            server.wf(),
            !server.players.registered(user.id),
            user.id == id0,
            user.token == token0,
            online ==> same_ids(taken, server.players.sessions()),
            !online ==> server.players.sessions().len() == taken.len(),
            reader.bytes() == d,
            trace[0] == start,
            run_steps(trace, offsets, outs, d),
            trace.last() == (server.players.sessions(), server.channels@, user, ops@),
            offsets.last() == reader.pos(),
            forall|k: int| #![trigger outs[k]] 0 <= k < outs.len() - 1 ==> outs[k] == Outcome::Next,
            !online ==> outs.len() > 0 && outs.last() == Outcome::LoggedOut,
            online ==> outs.len() == 0 || outs.last() != Outcome::LoggedOut,
        ensures
            (outs.len() == 0 || outs.last() == Outcome::Next) ==> offsets.last() >= d.len(),
        decreases reader.bytes().len() - reader.pos(),
    {
        let ghost before = server.players.sessions();
        let ghost prev = trace.last();
        let ghost pos = reader.pos();
        let ghost rest = reader.rest();
        assert(pos < d.len());
        let out = process_frame(server, &mut user, &mut reader, &mut ops);
        proof {
            let next: Snapshot = (server.players.sessions(), server.channels@, user, ops@);
            let t2 = trace.push(next);
            let o2 = offsets.push(reader.pos());
            let s2 = outs.push(out);
            assert(rest == d.subrange(pos as int, d.len() as int));
            assert forall|k: int| 0 <= k < s2.len() implies #[trigger] step_ok(t2, o2, s2, d, k) by {
                if k < outs.len() {
                    assert(step_ok(trace, offsets, outs, d, k));
                    assert(outs[k] == s2[k]);
                    assert(offsets[k] < d.len());
                    assert(t2[k] == trace[k] && t2[k + 1] == trace[k + 1]);
                    assert(o2[k] == offsets[k] && o2[k + 1] == offsets[k + 1]);
                } else {
                    assert(t2[k] == prev && t2[k + 1] == next);
                    assert(o2[k] == pos);
                    assert(o2[k] < d.len());
                }
            }
            assert(o2[0] == offsets[0]);
            assert(t2.len() == o2.len());
            assert(s2.len() + 1 == t2.len());
            assert(o2[0] == 0);
            assert(run_steps(t2, o2, s2, d));
            assert(t2.last() == next);
            assert(o2.last() == reader.pos());
            trace = t2;
            offsets = o2;
            outs = s2;
        }
        match out {
            Outcome::Next => {
                proof {
                    lemma_same_ids_trans(taken, before, server.players.sessions());
                }
            },
            Outcome::LoggedOut => {
                online = false;
                break;
            },
            Outcome::Malformed => {
                proof {
                    lemma_same_ids_trans(taken, before, server.players.sessions());
                }
                break;
            },
        }
    }
    let ghost last_user = user;
    let body = user.dequeue();
    if online {
        let count = server.players.player_count();
        let at = if idx <= count {
            idx
        } else {
            count
        };
        server.players.restore(at, user);
        proof {
            assert(at == idx);
            assert(server.players.sessions()[idx as int] == user);
        }
    }
    proof {
        assert(request_run(trace, offsets, outs, d));
        assert(request_outcome(
            old(server).players.sessions(),
            old(server).channels@,
            idx as int,
            trace,
            outs,
            body@,
            ops@,
            server.players.sessions(),
            server.channels@,
        ));
    }
    (body, ops)
}

/// A request whose body is one ping frame runs one step, which only queues
/// one pong for the caller.
pub proof fn lemma_single_ping(
    trace: Seq<Snapshot>,
    offsets: Seq<nat>,
    outs: Seq<Outcome>,
    data: Seq<u8>,
)
    requires
        request_run(trace, offsets, outs, data),
        data == seq![4u8, 0u8, 0u8, 0u8, 0u8, 0u8, 0u8],
    ensures
        outs.len() == 1,
        outs[0] == Outcome::Next,
        caller_got(trace[0], trace[1], packet_bytes(Packets::CHO_PONG, Seq::empty())),
{
    reveal_with_fuel(crate::codec::le_value, 5);
    assert(data.subrange(0, 2) =~= seq![4u8, 0u8]);
    assert(data.subrange(3, 7) =~= seq![0u8, 0u8, 0u8, 0u8]);
    assert(header_read(data) == Some((4u16, 0u32)));
    assert(data.subrange(0, data.len() as int) =~= data);
    if outs.len() == 0 {
        assert(offsets.last() == offsets[0]);
    }
    assert(step_ok(trace, offsets, outs, data, 0));
    assert(spec_lookup(4, trace[0].2.spec_restricted()) == Some(Handler::Ping));
    if outs.len() > 1 {
        assert(step_ok(trace, offsets, outs, data, 1));
    }
}

/// A request that adds friend 5 twice, from a caller without that friend,
/// leaves 5 listed once and records one insert.
pub proof fn lemma_friend_added_once(
    trace: Seq<Snapshot>,
    offsets: Seq<nat>,
    outs: Seq<Outcome>,
    data: Seq<u8>,
)
    requires
        request_run(trace, offsets, outs, data),
        data == seq![73u8, 0, 0, 4, 0, 0, 0, 5, 0, 0, 0, 73, 0, 0, 4, 0, 0, 0, 5, 0, 0, 0],
        !trace[0].2.friends@.contains(5),
    ensures
        outs.len() == 2,
        trace[2].2.friends@ == trace[0].2.friends@.push(5),
        trace[2].3 == trace[0].3.push(StoreOp::AddFriend { user: trace[0].2.id, target: 5 }),
        trace[2].0 == trace[0].0,
{
    reveal_with_fuel(crate::codec::le_value, 5);
    crate::codec::lemma_pow256_values();
    let f = seq![73u8, 0, 0, 4, 0, 0, 0, 5, 0, 0, 0];
    let tail = data.subrange(11, 22);
    assert(tail =~= f);
    assert(data.subrange(0, 2) =~= seq![73u8, 0u8]);
    assert(data.subrange(3, 7) =~= seq![4u8, 0u8, 0u8, 0u8]);
    assert(tail.subrange(0, 2) =~= seq![73u8, 0u8]);
    assert(tail.subrange(3, 7) =~= seq![4u8, 0u8, 0u8, 0u8]);
    assert(data.subrange(0, data.len() as int) =~= data);
    let body0 = data.subrange(7, 22);
    let body1 = tail.subrange(7, 11);
    assert(body0.subrange(0, 4) =~= seq![5u8, 0u8, 0u8, 0u8]);
    assert(body1.subrange(0, 4) =~= seq![5u8, 0u8, 0u8, 0u8]);
    assert(int_at::<i32>(body0) == 5);
    assert(int_at::<i32>(body1) == 5);
    if outs.len() == 0 {
        assert(offsets.last() == offsets[0]);
    }
    assert(step_ok(trace, offsets, outs, data, 0));
    assert(spec_lookup(73, trace[0].2.spec_restricted()) == Some(Handler::AddFriend));
    assert(offsets[1] == 11);
    if outs.len() == 1 {
        assert(offsets.last() == 11);
    }
    assert(step_ok(trace, offsets, outs, data, 1));
    assert(data.subrange(11, data.len() as int) =~= f);
    assert(trace[1].2.friends@ =~= trace[0].2.friends@.push(5));
    assert(trace[1].2.friends@.contains(5)) by {
        assert(trace[1].2.friends@[trace[0].2.friends@.len() as int] == 5);
    }
    assert(spec_lookup(73, trace[1].2.spec_restricted()) == Some(Handler::AddFriend));
    assert(header_read(tail) == Some((73u16, 4u32)));
    assert(tail.subrange(HEADER_LEN as int, tail.len() as int) =~= body1);
    assert(body1.len() == 4);
    assert(outs[1] == Outcome::Next);
    let used1 = (offsets[2] - offsets[1]) as nat;
    assert(frame_step(trace[1], trace[2], tail, outs[1], used1));
    assert(dispatch_step(73, 4, trace[1], trace[2], body1, outs[1], (used1 - 7) as nat));
    assert(handler_step(Handler::AddFriend, trace[1], trace[2], 4, body1, outs[1], (used1 - 7) as nat));
    assert(offsets[2] == 22);
    if outs.len() > 2 {
        assert(step_ok(trace, offsets, outs, data, 2));
    }
}

/// A restricted caller's start-spectating frame, whatever its target, runs
/// no handler: the request takes one step that changes nothing.
pub proof fn lemma_restricted_spectate_ignored(
    trace: Seq<Snapshot>,
    offsets: Seq<nat>,
    outs: Seq<Outcome>,
    data: Seq<u8>,
    target: Seq<u8>,
)
    requires
        request_run(trace, offsets, outs, data),
        target.len() == 4,
        data == seq![16u8, 0, 0, 4, 0, 0, 0] + target,
        trace[0].2.spec_restricted(),
    ensures
        outs.len() == 1,
        outs[0] == Outcome::Next,
        trace[1] == trace[0],
{
    reveal_with_fuel(crate::codec::le_value, 5);
    assert(data.subrange(0, 2) =~= seq![16u8, 0u8]);
    assert(data.subrange(3, 7) =~= seq![4u8, 0u8, 0u8, 0u8]);
    assert(header_read(data) == Some((16u16, 4u32)));
    assert(data.subrange(0, data.len() as int) =~= data);
    if outs.len() == 0 {
        assert(offsets.last() == offsets[0]);
    }
    assert(step_ok(trace, offsets, outs, data, 0));
    assert(spec_lookup(16, true) is None);
    if outs.len() > 1 {
        assert(step_ok(trace, offsets, outs, data, 1));
    }
}

} // verus!
