//! Builders of the server's outbound packets.
use vstd::prelude::*;
use vstd::string::StringExecFns;

use crate::codec::{frame_bytes, i32_list_bytes, osu_string_bytes, Readable};
use crate::constants::Packets;
use crate::session::User;
use crate::writer::PacketWriter;

verus! {

/// A frame of the given type around `payload`.
pub open spec fn packet_bytes(p: Packets, payload: Seq<u8>) -> Seq<u8> {
    frame_bytes(p.spec_id(), payload)
}

pub open spec fn le_of<T: Readable>(v: T) -> Seq<u8> {
    T::spec_to_le(v)
}

/// Payload of a user's presence: id, name, UTC offset + 24, country, privilege
/// byte with the mode in its top three bits, longitude, latitude, rank.
pub open spec fn presence_payload(u: User) -> Seq<u8> {
    le_of(u.id) + osu_string_bytes(u.username@) + le_of((u.utc_offset + 24) as u8) + le_of(u.geoloc)
        + le_of(u.bancho_priv | ((u.current_mode.spec_value() * 32) as u8)) + le_of(u.long)
        + le_of(u.lat) + le_of(0i32)
}

/// Payload of a user's statistics: id, status, then the current mode's
/// scores, accuracy, play count, rank and performance points.
pub open spec fn stats_payload(u: User) -> Seq<u8> {
    let s = u.spec_current_stats();
    le_of(u.id) + le_of(u.action.spec_value()) + osu_string_bytes(u.info_text@) + osu_string_bytes(
        u.map_md5@,
    ) + le_of(u.mods.bits) + le_of(u.current_mode.spec_value()) + le_of(u.map_id) + le_of(
        s.ranked_score as i64,
    ) + le_of(s.accuracy) + le_of(s.playcount) + le_of(s.total_score as i64) + le_of(0i32) + le_of(
        s.pp as i16,
    )
}

fn single_i32(p: Packets, v: i32) -> (r: Vec<u8>)
    ensures
        r@ == packet_bytes(p, le_of(v)),
{
    let mut writer = PacketWriter::new(p);
    writer.write_int(v);
    writer.serialise()
}

/// The empty reply to a ping.
pub fn pong() -> (r: Vec<u8>)
    ensures
        r@ == packet_bytes(Packets::CHO_PONG, Seq::empty()),
{
    let mut writer = PacketWriter::new(Packets::CHO_PONG);
    writer.serialise()
}

/// A notification shown to the client.
pub fn notification(text: &str) -> (r: Vec<u8>)
    ensures
        r@ == packet_bytes(Packets::CHO_NOTIFICATION, osu_string_bytes(text@)),
{
    let mut writer = PacketWriter::new(Packets::CHO_NOTIFICATION);
    writer.write_str(text);
    writer.serialise()
}

/// Marks the end of the channel list.
pub fn channel_info_end() -> (r: Vec<u8>)
    ensures
        r@ == packet_bytes(Packets::CHO_CHANNEL_INFO_END, Seq::empty()),
{
    let mut writer = PacketWriter::new(Packets::CHO_CHANNEL_INFO_END);
    writer.serialise()
}

/// The main menu icon, sent as `icon|link`.
pub fn main_menu_icon(icon: &str, link: &str) -> (r: Vec<u8>)
    ensures
        r@ == packet_bytes(Packets::CHO_MAIN_MENU_ICON, osu_string_bytes(icon@ + "|"@ + link@)),
{
    let text = String::from_str(icon).concat("|").concat(link);
    let mut writer = PacketWriter::new(Packets::CHO_MAIN_MENU_ICON);
    writer.write_str(text.as_str());
    writer.serialise()
}

/// The user's friend ids.
pub fn friends_list(user: &User) -> (r: Vec<u8>)
    ensures
        r@ == packet_bytes(Packets::CHO_FRIENDS_LIST, i32_list_bytes(user.friends@)),
{
    let mut writer = PacketWriter::new(Packets::CHO_FRIENDS_LIST);
    writer.write_i32_list(&user.friends);
    writer.serialise()
}

/// The user's presence.
pub fn user_presence(user: &User) -> (r: Vec<u8>)
    ensures
        r@ == packet_bytes(Packets::CHO_USER_PRESENCE, presence_payload(*user)),
{
    let mut writer = PacketWriter::new(Packets::CHO_USER_PRESENCE);
    writer.write_int(user.id);
    writer.write_str(user.username.as_str());
    writer.write_int((user.utc_offset as i64 + 24) as u8);
    writer.write_int(user.geoloc);
    writer.write_int(user.bancho_priv | (user.current_mode.value() * 32));
    writer.write_int(user.long);
    writer.write_int(user.lat);
    writer.write_int(0i32);
    let r = writer.serialise();
    assert(r@ =~= packet_bytes(Packets::CHO_USER_PRESENCE, presence_payload(*user)));
    r
}

/// The user's status and statistics in its current mode.
pub fn user_stats(user: &User) -> (r: Vec<u8>)
    ensures
        r@ == packet_bytes(Packets::CHO_USER_STATS, stats_payload(*user)),
{
    let stats = user.current_stats();
    let mut writer = PacketWriter::new(Packets::CHO_USER_STATS);
    writer.write_int(user.id);
    writer.write_int(user.action.value());
    writer.write_str(user.info_text.as_str());
    writer.write_str(user.map_md5.as_str());
    writer.write_int(user.mods.bits);
    writer.write_int(user.current_mode.value());
    writer.write_int(user.map_id);
    writer.write_int(stats.ranked_score as i64);
    writer.write_int(stats.accuracy);
    writer.write_int(stats.playcount);
    writer.write_int(stats.total_score as i64);
    writer.write_int(0i32);
    writer.write_int(stats.pp as i16);
    let r = writer.serialise();
    assert(r@ =~= packet_bytes(Packets::CHO_USER_STATS, stats_payload(*user)));
    r
}

/// Tells the client that the user left: id, then a zero byte.
pub fn logout(user_id: i32) -> (r: Vec<u8>)
    ensures
        r@ == packet_bytes(Packets::CHO_USER_LOGOUT, le_of(user_id) + le_of(0u8)),
{
    let mut writer = PacketWriter::new(Packets::CHO_USER_LOGOUT);
    writer.write_int(user_id);
    writer.write_int(0u8);
    writer.serialise()
}

/// Spectator frames, passed on as they came.
pub fn spectate_frames(frames: Vec<u8>) -> (r: Vec<u8>)
    ensures
        r@ == packet_bytes(Packets::OSU_SPECTATE_FRAMES, frames@),
{
    let mut writer = PacketWriter::new(Packets::OSU_SPECTATE_FRAMES);
    writer.write_bytes(frames.as_slice());
    writer.serialise()
}

/// A chat message: sender name, text, target channel, sender id.
pub fn channel_message(src_name: String, src_id: i32, content: String, target_name: String) -> (r:
    Vec<u8>)
    ensures
        r@ == packet_bytes(
            Packets::CHO_SEND_MESSAGE,
            osu_string_bytes(src_name@) + osu_string_bytes(content@) + osu_string_bytes(
                target_name@,
            ) + le_of(src_id),
        ),
{
    let mut writer = PacketWriter::new(Packets::CHO_SEND_MESSAGE);
    writer.write_str(src_name.as_str());
    writer.write_str(content.as_str());
    writer.write_str(target_name.as_str());
    writer.write_int(src_id);
    let r = writer.serialise();
    assert(r@ =~= packet_bytes(
        Packets::CHO_SEND_MESSAGE,
        osu_string_bytes(src_name@) + osu_string_bytes(content@) + osu_string_bytes(target_name@)
            + le_of(src_id),
    ));
    r
}

/// The id of the session; -1 for a refused login.
pub fn user_id(id: i32) -> (r: Vec<u8>)
    ensures
        r@ == packet_bytes(Packets::CHO_USER_ID, le_of(id)),
{
    single_i32(Packets::CHO_USER_ID, id)
}

/// The protocol version spoken.
pub fn protocol_version(version: i32) -> (r: Vec<u8>)
    ensures
        r@ == packet_bytes(Packets::CHO_PROTOCOL_VERSION, le_of(version)),
{
    single_i32(Packets::CHO_PROTOCOL_VERSION, version)
}

/// The privilege bits shown to the client.
pub fn bancho_privileges(privs: i32) -> (r: Vec<u8>)
    ensures
        r@ == packet_bytes(Packets::CHO_PRIVILEGES, le_of(privs)),
{
    single_i32(Packets::CHO_PRIVILEGES, privs)
}

/// When the silence of the user ends.
pub fn silence_end(until: i32) -> (r: Vec<u8>)
    ensures
        r@ == packet_bytes(Packets::CHO_SILENCE_END, le_of(until)),
{
    single_i32(Packets::CHO_SILENCE_END, until)
}

/// Tells the client to reconnect, logging in again.
pub fn server_restart(time: i32) -> (r: Vec<u8>)
    ensures
        r@ == packet_bytes(Packets::CHO_RESTART, le_of(time)),
{
    single_i32(Packets::CHO_RESTART, time)
}

/// To a spectator: another spectator joined.
pub fn spectator_joined(user_id: i32) -> (r: Vec<u8>)
    ensures
        r@ == packet_bytes(Packets::CHO_FELLOW_SPECTATOR_JOINED, le_of(user_id)),
{
    single_i32(Packets::CHO_FELLOW_SPECTATOR_JOINED, user_id)
}

/// To the host: a spectator joined.
pub fn host_spectator_joined(user_id: i32) -> (r: Vec<u8>)
    ensures
        r@ == packet_bytes(Packets::CHO_SPECTATOR_JOINED, le_of(user_id)),
{
    single_i32(Packets::CHO_SPECTATOR_JOINED, user_id)
}

/// To a spectator: another spectator left.
pub fn spectator_left(user_id: i32) -> (r: Vec<u8>)
    ensures
        r@ == packet_bytes(Packets::CHO_FELLOW_SPECTATOR_LEFT, le_of(user_id)),
{
    single_i32(Packets::CHO_FELLOW_SPECTATOR_LEFT, user_id)
}

/// To the host: a spectator left.
pub fn host_spectator_left(user_id: i32) -> (r: Vec<u8>)
    ensures
        r@ == packet_bytes(Packets::CHO_SPECTATOR_LEFT, le_of(user_id)),
{
    single_i32(Packets::CHO_SPECTATOR_LEFT, user_id)
}

} // verus!
