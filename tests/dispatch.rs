use rosu::dispatch::{dispatch, handle_request, lookup, process_frame, Handler, Outcome};
use rosu::packets::{logout, pong, server_restart, spectate_frames, user_presence, user_stats};
use rosu::reader::Reader;
use rosu::server::Server;
use rosu::session::{StoreOp, User};
use rosu::status::{Action, Mode, Privileges};

fn user(id: i32, name: &str, token: &str, privileges: i64) -> User {
    User::new(id, name.to_string(), token.to_string(), Privileges::from_value(privileges))
}

fn frame(id: u16, payload: &[u8]) -> Vec<u8> {
    let mut f = id.to_le_bytes().to_vec();
    f.push(0);
    f.extend((payload.len() as u32).to_le_bytes());
    f.extend_from_slice(payload);
    f
}

fn server_with(users: Vec<User>) -> Server {
    let mut server = Server::new();
    for u in users {
        server.players.add_player(u);
    }
    server
}

fn drain(server: &mut Server, id: i32) -> Vec<u8> {
    let i = server.players.get_id(id).unwrap();
    let mut u = server.players.take(i);
    let out = u.dequeue();
    server.players.restore(i, u);
    out
}

#[test]
fn ping_round_trip() {
    let mut server = server_with(vec![user(1, "alice", "tok", 1)]);
    let (body, ops) = handle_request(&mut server, "tok", frame(4, &[]));
    assert_eq!(body, vec![8, 0, 0, 0, 0, 0, 0]);
    assert_eq!(body, pong());
    assert!(ops.is_empty());
    assert_eq!(server.players.player_count(), 1);
    assert!(server.players.get_token("tok").is_some());
}

#[test]
fn unknown_token_gets_restart() {
    let mut server = server_with(vec![user(1, "alice", "tok", 1)]);
    let (body, ops) = handle_request(&mut server, "nope", frame(4, &[]));
    assert_eq!(body, server_restart(0));
    assert!(ops.is_empty());
}

#[test]
fn friend_add_is_idempotent() {
    let mut server = server_with(vec![user(1, "alice", "tok", 1)]);
    let mut data = frame(73, &5i32.to_le_bytes());
    data.extend(frame(73, &5i32.to_le_bytes()));
    let (body, ops) = handle_request(&mut server, "tok", data);
    assert!(body.is_empty());
    assert_eq!(ops, vec![StoreOp::AddFriend { user: 1, target: 5 }]);
    let i = server.players.get_id(1).unwrap();
    assert_eq!(server.players.get(i).friends, vec![5]);
}

#[test]
fn friend_remove_records_once() {
    let mut u = user(1, "alice", "tok", 1);
    u.friends = vec![5, 6];
    let mut server = server_with(vec![u]);
    let mut data = frame(74, &5i32.to_le_bytes());
    data.extend(frame(74, &5i32.to_le_bytes()));
    let (_, ops) = handle_request(&mut server, "tok", data);
    assert_eq!(ops, vec![StoreOp::RemoveFriend { user: 1, target: 5 }]);
    let i = server.players.get_id(1).unwrap();
    assert_eq!(server.players.get(i).friends, vec![6]);
}

#[test]
fn unknown_packet_is_skipped_whole() {
    let mut server = server_with(vec![user(1, "alice", "tok", 1)]);
    let mut data = frame(6, &[1, 2, 3]);
    data.extend(frame(4, &[]));
    let (body, _) = handle_request(&mut server, "tok", data);
    assert_eq!(body, pong());
}

#[test]
fn unknown_packet_cursor_lands_on_next_header() {
    let mut server = server_with(vec![]);
    let mut u = user(1, "alice", "tok", 1);
    let mut data = frame(1, &[9, 9, 9, 9, 9]);
    data.extend(frame(4, &[]));
    let total = data.len();
    let mut reader = Reader::new(data);
    let mut ops = Vec::new();
    assert_eq!(process_frame(&mut server, &mut u, &mut reader, &mut ops), Outcome::Next);
    assert_eq!(reader.remaining(), total - (7 + 5));
    assert_eq!(reader.read_header(), Some((4, 0)));
    assert!(u.dequeue().is_empty());
}

#[test]
fn restricted_session_cannot_spectate() {
    let mut server = server_with(vec![user(1, "alice", "tok", 0), user(2, "bob", "bt", 1)]);
    let mut data = frame(16, &2i32.to_le_bytes());
    data.extend(frame(4, &[]));
    let (body, ops) = handle_request(&mut server, "tok", data);
    assert_eq!(body, pong());
    assert!(ops.is_empty());
    let i = server.players.get_id(2).unwrap();
    assert!(server.players.get(i).spectators.is_empty());
    let a = server.players.get_id(1).unwrap();
    assert_eq!(server.players.get(a).spectating, None);
    assert!(drain(&mut server, 2).is_empty());
}

#[test]
fn restricted_dispatch_changes_nothing() {
    let mut server = server_with(vec![user(2, "bob", "bt", 1)]);
    let mut u = user(1, "alice", "tok", 0);
    let mut reader = Reader::new(vec![2, 0, 0, 0, 7]);
    let mut ops = Vec::new();
    assert_eq!(lookup(16, true), None);
    assert_eq!(lookup(16, false), Some(Handler::StartSpectating));
    assert_eq!(lookup(4, true), Some(Handler::Ping));
    assert_eq!(dispatch(&mut server, &mut u, &mut reader, 16, 4, &mut ops), Outcome::Next);
    assert_eq!(reader.remaining(), 1);
    assert_eq!(u.spectating, None);
    assert!(u.dequeue().is_empty());
    assert!(ops.is_empty());
}

#[test]
fn oversized_payload_is_malformed() {
    let mut server = server_with(vec![]);
    let mut u = user(1, "alice", "tok", 1);
    let mut reader = Reader::new(vec![1, 2]);
    let mut ops = Vec::new();
    assert_eq!(dispatch(&mut server, &mut u, &mut reader, 6, 3, &mut ops), Outcome::Malformed);
    assert_eq!(reader.remaining(), 2);
    let mut cut = Reader::new(vec![4, 0, 0]);
    assert_eq!(process_frame(&mut server, &mut u, &mut cut, &mut ops), Outcome::Malformed);
}

#[test]
fn malformed_frame_stops_request_but_keeps_replies() {
    let mut server = server_with(vec![user(1, "alice", "tok", 1)]);
    let mut data = frame(4, &[]);
    data.extend(frame(73, &[1, 2]));
    let (body, ops) = handle_request(&mut server, "tok", data);
    assert_eq!(body, pong());
    assert!(ops.is_empty());
    assert!(server.players.get_token("tok").is_some());
}

#[test]
fn spectate_start_and_stop() {
    let mut server = server_with(vec![user(1, "alice", "at", 1), user(2, "bob", "bt", 1), user(3, "carol", "ct", 1)]);
    handle_request(&mut server, "ct", frame(16, &2i32.to_le_bytes()));
    drain(&mut server, 2);
    let (body, _) = handle_request(&mut server, "at", frame(16, &2i32.to_le_bytes()));
    let b = server.players.get_id(2).unwrap();
    assert_eq!(server.players.get(b).spectators, vec![3, 1]);
    let a = server.players.get_id(1).unwrap();
    assert_eq!(server.players.get(a).spectating, Some(2));
    assert_eq!(body, rosu::packets::spectator_joined(3));
    assert_eq!(drain(&mut server, 2), rosu::packets::host_spectator_joined(1));
    assert_eq!(drain(&mut server, 3), rosu::packets::spectator_joined(1));

    let (body, _) = handle_request(&mut server, "at", frame(17, &[]));
    assert!(body.is_empty());
    let b = server.players.get_id(2).unwrap();
    assert_eq!(server.players.get(b).spectators, vec![3]);
    let a = server.players.get_id(1).unwrap();
    assert_eq!(server.players.get(a).spectating, None);
    assert_eq!(drain(&mut server, 2), rosu::packets::host_spectator_left(1));
    assert_eq!(drain(&mut server, 3), rosu::packets::spectator_left(1));

    let (body, _) = handle_request(&mut server, "at", frame(17, &[]));
    assert!(body.is_empty());
    assert!(drain(&mut server, 2).is_empty());
}

#[test]
fn spectate_ignores_bot_self_and_absent() {
    let mut server = server_with(vec![user(1, "alice", "at", 1), user(999, "bot", "x", 1)]);
    for target in [1i32, 999, 42] {
        handle_request(&mut server, "at", frame(16, &target.to_le_bytes()));
    }
    let a = server.players.get_id(1).unwrap();
    assert_eq!(server.players.get(a).spectating, None);
    let bot = server.players.get_id(999).unwrap();
    assert!(server.players.get(bot).spectators.is_empty());
}

#[test]
fn switching_hosts_leaves_the_first() {
    let mut server = server_with(vec![user(1, "a", "at", 1), user(2, "b", "bt", 1), user(3, "c", "ct", 1)]);
    handle_request(&mut server, "at", frame(16, &2i32.to_le_bytes()));
    handle_request(&mut server, "at", frame(16, &3i32.to_le_bytes()));
    let b = server.players.get_id(2).unwrap();
    assert!(server.players.get(b).spectators.is_empty());
    let c = server.players.get_id(3).unwrap();
    assert_eq!(server.players.get(c).spectators, vec![1]);
}

#[test]
fn spectator_frames_go_to_everyone() {
    let mut server = server_with(vec![user(1, "a", "at", 1), user(2, "b", "bt", 1)]);
    let (body, _) = handle_request(&mut server, "at", frame(18, &[5, 6]));
    assert_eq!(body, spectate_frames(vec![5, 6]));
    assert_eq!(drain(&mut server, 2), spectate_frames(vec![5, 6]));
}

#[test]
fn logout_deregisters_and_tells_others() {
    let mut server = server_with(vec![user(1, "a", "at", 1), user(2, "b", "bt", 1)]);
    let mut data = frame(2, &[0, 0, 0, 0]);
    data.extend(frame(4, &[]));
    let (body, _) = handle_request(&mut server, "at", data);
    assert!(body.is_empty());
    assert_eq!(server.players.get_id(1), None);
    assert_eq!(drain(&mut server, 2), logout(1));
}

#[test]
fn restricted_logout_is_silent() {
    let mut server = server_with(vec![user(1, "a", "at", 0), user(2, "b", "bt", 1)]);
    handle_request(&mut server, "at", frame(2, &[]));
    assert_eq!(server.players.get_id(1), None);
    assert!(drain(&mut server, 2).is_empty());
}

#[test]
fn logout_leaves_channels() {
    let mut server = server_with(vec![user(1, "a", "at", 1)]);
    server.channels.push(rosu::channel::Channel {
        id: 1,
        name: "#osu".to_string(),
        description: String::new(),
        users: vec![2, 1],
        autojoin: false,
    });
    handle_request(&mut server, "at", frame(2, &[]));
    assert_eq!(server.channels[0].users, vec![2]);
}

fn action_payload(action: u8, info: &str, md5: &str, mods: u32, mode: u8, map: i32) -> Vec<u8> {
    let mut p = vec![action];
    p.extend(rosu::codec::write_osu_string(info.to_string()));
    p.extend(rosu::codec::write_osu_string(md5.to_string()));
    p.extend(mods.to_le_bytes());
    p.push(mode);
    p.extend(map.to_le_bytes());
    p
}

#[test]
fn status_change_updates_and_broadcasts() {
    let mut server = server_with(vec![user(1, "a", "at", 1), user(2, "b", "bt", 1)]);
    let (body, _) = handle_request(&mut server, "at", frame(0, &action_payload(2, "song", "abc", 128, 1, 77)));
    let a = server.players.get_id(1).unwrap();
    let u = server.players.get(a);
    assert_eq!(u.action, Action::Playing);
    assert_eq!(u.info_text, "song");
    assert_eq!(u.map_md5, "abc");
    assert_eq!(u.mods.value(), 128);
    assert_eq!(u.current_mode, Mode::TaikoRx);
    assert_eq!(u.map_id, 77);
    let stats = user_stats(u);
    assert_eq!(body, stats);
    assert_eq!(drain(&mut server, 2), stats);
}

#[test]
fn status_change_odd_values() {
    let mut server = server_with(vec![user(1, "a", "at", 0), user(2, "b", "bt", 1)]);
    let (body, _) = handle_request(&mut server, "at", frame(0, &action_payload(200, "", "", 0, 9, 1)));
    let a = server.players.get_id(1).unwrap();
    assert_eq!(server.players.get(a).action, Action::Unknown);
    assert_eq!(server.players.get(a).current_mode, Mode::Std);
    assert!(body.is_empty());
    assert!(drain(&mut server, 2).is_empty());
}

#[test]
fn status_update_sends_own_stats() {
    let mut server = server_with(vec![user(1, "a", "at", 1)]);
    let expected = user_stats(server.players.get(0));
    let (body, _) = handle_request(&mut server, "at", frame(3, &[]));
    assert_eq!(body, expected);
}

fn id_list(ids: &[i32]) -> Vec<u8> {
    let mut p = (ids.len() as u16).to_le_bytes().to_vec();
    for i in ids {
        p.extend(i.to_le_bytes());
    }
    p
}

#[test]
fn stats_request_skips_restricted_and_unknown() {
    let mut server = server_with(vec![user(1, "a", "at", 1), user(2, "b", "bt", 1), user(3, "c", "ct", 0)]);
    let bob_presence = user_presence(server.players.get(1));
    let alice_presence = user_presence(server.players.get(0));
    let (body, _) = handle_request(&mut server, "at", frame(85, &id_list(&[2, 3, 9, 1])));
    let mut expected = bob_presence;
    expected.extend(alice_presence);
    assert_eq!(body, expected);
}

#[test]
fn presence_request_includes_restricted() {
    let mut server = server_with(vec![user(1, "a", "at", 1), user(3, "c", "ct", 0)]);
    let carol_presence = user_presence(server.players.get(1));
    let (body, _) = handle_request(&mut server, "at", frame(97, &id_list(&[3, 9])));
    assert_eq!(body, carol_presence);
}

#[test]
fn full_presence_lists_public_sessions() {
    let mut server = server_with(vec![user(1, "a", "at", 1), user(2, "b", "bt", 0), user(3, "c", "ct", 1)]);
    let alice_presence = user_presence(server.players.get(0));
    let carol_presence = user_presence(server.players.get(2));
    let (body, _) = handle_request(&mut server, "at", frame(98, &[]));
    let mut expected = carol_presence;
    expected.extend(alice_presence);
    assert_eq!(body, expected);
}

#[test]
fn start_spectating_notifies_everyone_involved() {
    let mut server = server_with(vec![user(1, "a", "at", 1), user(2, "b", "bt", 1), user(3, "c", "ct", 1), user(4, "d", "dt", 1)]);
    handle_request(&mut server, "ct", frame(16, &2i32.to_le_bytes()));
    let (body, _) = handle_request(&mut server, "at", frame(16, &4i32.to_le_bytes()));
    assert!(body.is_empty());
    drain(&mut server, 2);
    drain(&mut server, 4);
    // a moves from d to b: d is told a left, b and c that a joined
    let (body, _) = handle_request(&mut server, "at", frame(16, &2i32.to_le_bytes()));
    assert_eq!(body, rosu::packets::spectator_joined(3));
    assert_eq!(drain(&mut server, 4), rosu::packets::host_spectator_left(1));
    assert_eq!(drain(&mut server, 2), rosu::packets::host_spectator_joined(1));
    assert_eq!(drain(&mut server, 3), rosu::packets::spectator_joined(1));
}
