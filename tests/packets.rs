use rosu::constants::{CountryCodes, Packets};
use rosu::packets::{
    bancho_privileges, channel_info_end, channel_message, friends_list, host_spectator_joined,
    host_spectator_left, logout, main_menu_icon, notification, pong, protocol_version,
    server_restart, silence_end, spectate_frames, spectator_joined, spectator_left, user_id,
    user_presence, user_stats,
};
use rosu::session::{Stats, User};
use rosu::status::{Action, Mode, Mods, Privileges};

fn sample_user() -> User {
    let mut u = User::new(7, "bob".to_string(), "t".to_string(), Privileges::from_value(1));
    u.utc_offset = 2;
    u.geoloc = 3;
    u.bancho_priv = 1;
    u.current_mode = Mode::Taiko;
    u.long = 0x3f80_0000;
    u.lat = 0x4000_0000;
    u
}

#[test]
fn single_int_packets() {
    assert_eq!(user_id(5), vec![5, 0, 0, 4, 0, 0, 0, 5, 0, 0, 0]);
    assert_eq!(user_id(-1), vec![5, 0, 0, 4, 0, 0, 0, 0xff, 0xff, 0xff, 0xff]);
    assert_eq!(protocol_version(19), vec![75, 0, 0, 4, 0, 0, 0, 19, 0, 0, 0]);
    assert_eq!(bancho_privileges(1), vec![71, 0, 0, 4, 0, 0, 0, 1, 0, 0, 0]);
    assert_eq!(silence_end(0), vec![92, 0, 0, 4, 0, 0, 0, 0, 0, 0, 0]);
    assert_eq!(server_restart(0), vec![86, 0, 0, 4, 0, 0, 0, 0, 0, 0, 0]);
    assert_eq!(spectator_joined(2), vec![42, 0, 0, 4, 0, 0, 0, 2, 0, 0, 0]);
    assert_eq!(host_spectator_joined(2), vec![13, 0, 0, 4, 0, 0, 0, 2, 0, 0, 0]);
    assert_eq!(spectator_left(2), vec![43, 0, 0, 4, 0, 0, 0, 2, 0, 0, 0]);
    assert_eq!(host_spectator_left(2), vec![14, 0, 0, 4, 0, 0, 0, 2, 0, 0, 0]);
}

#[test]
fn empty_packets() {
    assert_eq!(pong(), vec![8, 0, 0, 0, 0, 0, 0]);
    assert_eq!(channel_info_end(), vec![89, 0, 0, 0, 0, 0, 0]);
}

#[test]
fn string_packets() {
    assert_eq!(notification("hi"), vec![24, 0, 0, 4, 0, 0, 0, 0x0b, 2, b'h', b'i']);
    assert_eq!(main_menu_icon("a", "b"), vec![76, 0, 0, 5, 0, 0, 0, 0x0b, 3, b'a', b'|', b'b']);
    assert_eq!(main_menu_icon("", ""), vec![76, 0, 0, 3, 0, 0, 0, 0x0b, 1, b'|']);
}

#[test]
fn logout_packet() {
    assert_eq!(logout(9), vec![12, 0, 0, 5, 0, 0, 0, 9, 0, 0, 0, 0]);
}

#[test]
fn frames_packet_keeps_payload() {
    assert_eq!(spectate_frames(vec![1, 2, 3]), vec![18, 0, 0, 3, 0, 0, 0, 1, 2, 3]);
}

#[test]
fn chat_message_packet() {
    let p = channel_message("a".to_string(), 3, "yo".to_string(), "#osu".to_string());
    let mut expected = vec![7, 0, 0, 17, 0, 0, 0];
    expected.extend([0x0b, 1, b'a', 0x0b, 2, b'y', b'o', 0x0b, 4, b'#', b'o', b's', b'u', 3, 0, 0, 0]);
    assert_eq!(p, expected);
}

#[test]
fn friends_packet() {
    let mut u = sample_user();
    u.friends = vec![3, 4];
    assert_eq!(friends_list(&u), vec![72, 0, 0, 10, 0, 0, 0, 2, 0, 3, 0, 0, 0, 4, 0, 0, 0]);
}

#[test]
fn presence_packet_layout() {
    let u = sample_user();
    let p = user_presence(&u);
    let mut expected = vec![83, 0, 0, 24, 0, 0, 0, 7, 0, 0, 0, 0x0b, 3, b'b', b'o', b'b'];
    expected.extend([26, 3, 1 | (1 << 5)]);
    expected.extend([0, 0, 0x80, 0x3f, 0, 0, 0, 0x40, 0, 0, 0, 0]);
    assert_eq!(p, expected);
}

#[test]
fn stats_packet_layout() {
    let mut u = sample_user();
    u.action = Action::Playing;
    u.info_text = "x".to_string();
    u.mods = Mods::from_value(8);
    u.map_id = 10;
    u.stats[1] = Stats { total_score: 5, ranked_score: -1, accuracy: 0x3f00_0000, playcount: 2, pp: 70000 };
    let p = user_stats(&u);
    let mut expected = vec![11, 0, 0];
    let mut payload = vec![7, 0, 0, 0, 2, 0x0b, 1, b'x', 0x00, 8, 0, 0, 0, 1, 10, 0, 0, 0];
    payload.extend([0xff; 8]);
    payload.extend([0, 0, 0, 0x3f]);
    payload.extend([2, 0, 0, 0]);
    payload.extend([5, 0, 0, 0, 0, 0, 0, 0]);
    payload.extend([0, 0, 0, 0]);
    payload.extend((70000i32 as i16).to_le_bytes());
    expected.extend((payload.len() as u32).to_le_bytes());
    expected.extend(payload);
    assert_eq!(p, expected);
}

#[test]
fn stats_packet_without_records_sends_zeroes() {
    let mut u = sample_user();
    u.stats = vec![];
    let p = user_stats(&u);
    assert_eq!(p.len(), 7 + 4 + 1 + 1 + 1 + 4 + 1 + 4 + 8 + 4 + 4 + 8 + 4 + 2);
    assert!(p[p.len() - 30..].iter().all(|b| *b == 0));
}

#[test]
fn packet_ids() {
    assert_eq!(Packets::OSU_PING.id(), 4);
    assert_eq!(Packets::CHO_PONG.id(), 8);
    assert_eq!(Packets::OSU_TOURNAMENT_LEAVE_MATCH_CHANNEL.id(), 109);
    assert_eq!(Packets::from_i32(73), Some(Packets::OSU_FRIEND_ADD));
    assert_eq!(Packets::from_i32(6), None);
    assert_eq!(Packets::from_i32(35), None);
    assert_eq!(Packets::from_i32(110), None);
    assert_eq!(Packets::from_i32(-1), None);
}

#[test]
fn country_codes() {
    assert_eq!(CountryCodes::UN.value(), 0);
    assert_eq!(CountryCodes::XX.value(), 244);
    assert_eq!(CountryCodes::MF.value(), 252);
    assert_eq!(CountryCodes::from_code(b"AD"), Some(CountryCodes::AD));
    assert_eq!(CountryCodes::from_code(b"ad"), None);
    assert_eq!(CountryCodes::from_code(b"ADX"), None);
}

#[test]
fn modes_from_mods() {
    assert_eq!(Mode::from_mods(0, 0), Some(Mode::Std));
    assert_eq!(Mode::from_mods(0, 128), Some(Mode::StdRx));
    assert_eq!(Mode::from_mods(1, 128), Some(Mode::TaikoRx));
    assert_eq!(Mode::from_mods(2, 128 | 8), Some(Mode::CatchRx));
    assert_eq!(Mode::from_mods(3, 128), Some(Mode::Mania));
    assert_eq!(Mode::from_mods(0, 8192), Some(Mode::StdAp));
    assert_eq!(Mode::from_mods(2, 8192), Some(Mode::Catch));
    assert_eq!(Mode::from_mods(0, 128 | 8192), Some(Mode::StdRx));
    assert_eq!(Mode::from_mods(4, 0), None);
    assert_eq!(Mode::from_mods(-1, 128), None);
}

#[test]
fn mode_tables() {
    assert_eq!(Mode::StdRx.stats_table(), "rx_stats");
    assert_eq!(Mode::Mania.stats_table(), "users_stats");
    assert_eq!(Mode::StdAp.stats_table(), "ap_stats");
    assert_eq!(Mode::TaikoRx.as_vn(), 1);
    assert_eq!(Mode::StdAp.as_vn(), 0);
    assert_eq!(Mode::Mania.as_vn(), 3);
    assert_eq!(Mode::CatchRx.sql_suffix(), "ctb");
    assert_eq!(Mode::Mania.sql_suffix(), "mania");
    assert_eq!(Mode::StdAp.sql_suffix(), "std");
    assert_eq!(Mode::from_i32(5), Some(Mode::TaikoRx));
    assert_eq!(Mode::from_i32(8), None);
}

#[test]
fn actions_and_flags() {
    assert_eq!(Action::from_u8(13), Some(Action::OsuDirect));
    assert_eq!(Action::from_u8(14), None);
    assert_eq!(Action::Watching.value(), 6);
    assert_eq!(Mods::from_value(136).value(), 136);
    assert_eq!(Privileges::from_value(3).value(), 3);
    assert!(Privileges::from_value(3).is_public());
    assert!(!Privileges::from_value(2).is_public());
    let u = User::new(1, "a".to_string(), "t".to_string(), Privileges::from_value(2));
    assert!(u.restricted());
}
