//! Protocol constants: packet ids, client actions, game modes, mods,
//! privileges and country codes.
use vstd::prelude::*;

verus! {

/// Packet types; `OSU_` packets come from the client, `CHO_` packets from the server.
#[allow(non_camel_case_types)]
#[derive(Clone, Copy, Debug, PartialEq, Eq, Structural, Hash)]
pub enum Packets {
    OSU_CHANGE_ACTION,
    OSU_SEND_PUBLIC_MESSAGE,
    OSU_LOGOUT,
    OSU_REQUEST_STATUS_UPDATE,
    OSU_PING,
    CHO_USER_ID,
    CHO_SEND_MESSAGE,
    CHO_PONG,
    CHO_HANDLE_IRC_CHANGE_USERNAME,
    CHO_HANDLE_IRC_QUIT,
    CHO_USER_STATS,
    CHO_USER_LOGOUT,
    CHO_SPECTATOR_JOINED,
    CHO_SPECTATOR_LEFT,
    CHO_SPECTATE_FRAMES,
    OSU_START_SPECTATING,
    OSU_STOP_SPECTATING,
    OSU_SPECTATE_FRAMES,
    CHO_VERSION_UPDATE,
    OSU_ERROR_REPORT,
    OSU_CANT_SPECTATE,
    CHO_SPECTATOR_CANT_SPECTATE,
    CHO_GET_ATTENTION,
    CHO_NOTIFICATION,
    OSU_SEND_PRIVATE_MESSAGE,
    CHO_UPDATE_MATCH,
    CHO_NEW_MATCH,
    CHO_DISPOSE_MATCH,
    OSU_PART_LOBBY,
    OSU_JOIN_LOBBY,
    OSU_CREATE_MATCH,
    OSU_JOIN_MATCH,
    OSU_PART_MATCH,
    CHO_TOGGLE_BLOCK_NON_FRIEND_DMS,
    CHO_MATCH_JOIN_SUCCESS,
    CHO_MATCH_JOIN_FAIL,
    OSU_MATCH_CHANGE_SLOT,
    OSU_MATCH_READY,
    OSU_MATCH_LOCK,
    OSU_MATCH_CHANGE_SETTINGS,
    CHO_FELLOW_SPECTATOR_JOINED,
    CHO_FELLOW_SPECTATOR_LEFT,
    OSU_MATCH_START,
    CHO_ALL_PLAYERS_LOADED,
    CHO_MATCH_START,
    OSU_MATCH_SCORE_UPDATE,
    CHO_MATCH_SCORE_UPDATE,
    OSU_MATCH_COMPLETE,
    CHO_MATCH_TRANSFER_HOST,
    OSU_MATCH_CHANGE_MODS,
    OSU_MATCH_LOAD_COMPLETE,
    CHO_MATCH_ALL_PLAYERS_LOADED,
    OSU_MATCH_NO_BEATMAP,
    OSU_MATCH_NOT_READY,
    OSU_MATCH_FAILED,
    CHO_MATCH_PLAYER_FAILED,
    CHO_MATCH_COMPLETE,
    OSU_MATCH_HAS_BEATMAP,
    OSU_MATCH_SKIP_REQUEST,
    CHO_MATCH_SKIP,
    CHO_UNAUTHORIZED,
    OSU_CHANNEL_JOIN,
    CHO_CHANNEL_JOIN_SUCCESS,
    CHO_CHANNEL_INFO,
    CHO_CHANNEL_KICK,
    CHO_CHANNEL_AUTO_JOIN,
    OSU_BEATMAP_INFO_REQUEST,
    CHO_BEATMAP_INFO_REPLY,
    OSU_MATCH_TRANSFER_HOST,
    CHO_PRIVILEGES,
    CHO_FRIENDS_LIST,
    OSU_FRIEND_ADD,
    OSU_FRIEND_REMOVE,
    CHO_PROTOCOL_VERSION,
    CHO_MAIN_MENU_ICON,
    OSU_MATCH_CHANGE_TEAM,
    OSU_CHANNEL_PART,
    OSU_RECEIVE_UPDATES,
    CHO_MONITOR,
    CHO_MATCH_PLAYER_SKIPPED,
    OSU_SET_AWAY_MESSAGE,
    CHO_USER_PRESENCE,
    OSU_IRC_ONLY,
    OSU_USER_STATS_REQUEST,
    CHO_RESTART,
    OSU_MATCH_INVITE,
    CHO_MATCH_INVITE,
    CHO_CHANNEL_INFO_END,
    OSU_MATCH_CHANGE_PASSWORD,
    CHO_MATCH_CHANGE_PASSWORD,
    CHO_SILENCE_END,
    OSU_TOURNAMENT_MATCH_INFO_REQUEST,
    CHO_USER_SILENCED,
    CHO_USER_PRESENCE_SINGLE,
    CHO_USER_PRESENCE_BUNDLE,
    OSU_USER_PRESENCE_REQUEST,
    OSU_USER_PRESENCE_REQUEST_ALL,
    OSU_TOGGLE_BLOCK_NON_FRIEND_DMS,
    CHO_USER_DM_BLOCKED,
    CHO_TARGET_IS_SILENCED,
    CHO_VERSION_UPDATE_FORCED,
    CHO_SWITCH_SERVER,
    CHO_ACCOUNT_RESTRICTED,
    CHO_RTX,
    CHO_MATCH_ABORT,
    CHO_SWITCH_TOURNAMENT_SERVER,
    OSU_TOURNAMENT_JOIN_MATCH_CHANNEL,
    OSU_TOURNAMENT_LEAVE_MATCH_CHANNEL,
}

impl Packets {
    /// The id that stands for the packet type on the wire.
    pub open spec fn spec_id(self) -> u16 {
        match self {
            Packets::OSU_CHANGE_ACTION => 0,
            Packets::OSU_SEND_PUBLIC_MESSAGE => 1,
            Packets::OSU_LOGOUT => 2,
            Packets::OSU_REQUEST_STATUS_UPDATE => 3,
            Packets::OSU_PING => 4,
            Packets::CHO_USER_ID => 5,
            Packets::CHO_SEND_MESSAGE => 7,
            Packets::CHO_PONG => 8,
            Packets::CHO_HANDLE_IRC_CHANGE_USERNAME => 9,
            Packets::CHO_HANDLE_IRC_QUIT => 10,
            Packets::CHO_USER_STATS => 11,
            Packets::CHO_USER_LOGOUT => 12,
            Packets::CHO_SPECTATOR_JOINED => 13,
            Packets::CHO_SPECTATOR_LEFT => 14,
            Packets::CHO_SPECTATE_FRAMES => 15,
            Packets::OSU_START_SPECTATING => 16,
            Packets::OSU_STOP_SPECTATING => 17,
            Packets::OSU_SPECTATE_FRAMES => 18,
            Packets::CHO_VERSION_UPDATE => 19,
            Packets::OSU_ERROR_REPORT => 20,
            Packets::OSU_CANT_SPECTATE => 21,
            Packets::CHO_SPECTATOR_CANT_SPECTATE => 22,
            Packets::CHO_GET_ATTENTION => 23,
            Packets::CHO_NOTIFICATION => 24,
            Packets::OSU_SEND_PRIVATE_MESSAGE => 25,
            Packets::CHO_UPDATE_MATCH => 26,
            Packets::CHO_NEW_MATCH => 27,
            Packets::CHO_DISPOSE_MATCH => 28,
            Packets::OSU_PART_LOBBY => 29,
            Packets::OSU_JOIN_LOBBY => 30,
            Packets::OSU_CREATE_MATCH => 31,
            Packets::OSU_JOIN_MATCH => 32,
            Packets::OSU_PART_MATCH => 33,
            Packets::CHO_TOGGLE_BLOCK_NON_FRIEND_DMS => 34,
            Packets::CHO_MATCH_JOIN_SUCCESS => 36,
            Packets::CHO_MATCH_JOIN_FAIL => 37,
            Packets::OSU_MATCH_CHANGE_SLOT => 38,
            Packets::OSU_MATCH_READY => 39,
            Packets::OSU_MATCH_LOCK => 40,
            Packets::OSU_MATCH_CHANGE_SETTINGS => 41,
            Packets::CHO_FELLOW_SPECTATOR_JOINED => 42,
            Packets::CHO_FELLOW_SPECTATOR_LEFT => 43,
            Packets::OSU_MATCH_START => 44,
            Packets::CHO_ALL_PLAYERS_LOADED => 45,
            Packets::CHO_MATCH_START => 46,
            Packets::OSU_MATCH_SCORE_UPDATE => 47,
            Packets::CHO_MATCH_SCORE_UPDATE => 48,
            Packets::OSU_MATCH_COMPLETE => 49,
            Packets::CHO_MATCH_TRANSFER_HOST => 50,
            Packets::OSU_MATCH_CHANGE_MODS => 51,
            Packets::OSU_MATCH_LOAD_COMPLETE => 52,
            Packets::CHO_MATCH_ALL_PLAYERS_LOADED => 53,
            Packets::OSU_MATCH_NO_BEATMAP => 54,
            Packets::OSU_MATCH_NOT_READY => 55,
            Packets::OSU_MATCH_FAILED => 56,
            Packets::CHO_MATCH_PLAYER_FAILED => 57,
            Packets::CHO_MATCH_COMPLETE => 58,
            Packets::OSU_MATCH_HAS_BEATMAP => 59,
            Packets::OSU_MATCH_SKIP_REQUEST => 60,
            Packets::CHO_MATCH_SKIP => 61,
            Packets::CHO_UNAUTHORIZED => 62,
            Packets::OSU_CHANNEL_JOIN => 63,
            Packets::CHO_CHANNEL_JOIN_SUCCESS => 64,
            Packets::CHO_CHANNEL_INFO => 65,
            Packets::CHO_CHANNEL_KICK => 66,
            Packets::CHO_CHANNEL_AUTO_JOIN => 67,
            Packets::OSU_BEATMAP_INFO_REQUEST => 68,
            Packets::CHO_BEATMAP_INFO_REPLY => 69,
            Packets::OSU_MATCH_TRANSFER_HOST => 70,
            Packets::CHO_PRIVILEGES => 71,
            Packets::CHO_FRIENDS_LIST => 72,
            Packets::OSU_FRIEND_ADD => 73,
            Packets::OSU_FRIEND_REMOVE => 74,
            Packets::CHO_PROTOCOL_VERSION => 75,
            Packets::CHO_MAIN_MENU_ICON => 76,
            Packets::OSU_MATCH_CHANGE_TEAM => 77,
            Packets::OSU_CHANNEL_PART => 78,
            Packets::OSU_RECEIVE_UPDATES => 79,
            Packets::CHO_MONITOR => 80,
            Packets::CHO_MATCH_PLAYER_SKIPPED => 81,
            Packets::OSU_SET_AWAY_MESSAGE => 82,
            Packets::CHO_USER_PRESENCE => 83,
            Packets::OSU_IRC_ONLY => 84,
            Packets::OSU_USER_STATS_REQUEST => 85,
            Packets::CHO_RESTART => 86,
            Packets::OSU_MATCH_INVITE => 87,
            Packets::CHO_MATCH_INVITE => 88,
            Packets::CHO_CHANNEL_INFO_END => 89,
            Packets::OSU_MATCH_CHANGE_PASSWORD => 90,
            Packets::CHO_MATCH_CHANGE_PASSWORD => 91,
            Packets::CHO_SILENCE_END => 92,
            Packets::OSU_TOURNAMENT_MATCH_INFO_REQUEST => 93,
            Packets::CHO_USER_SILENCED => 94,
            Packets::CHO_USER_PRESENCE_SINGLE => 95,
            Packets::CHO_USER_PRESENCE_BUNDLE => 96,
            Packets::OSU_USER_PRESENCE_REQUEST => 97,
            Packets::OSU_USER_PRESENCE_REQUEST_ALL => 98,
            Packets::OSU_TOGGLE_BLOCK_NON_FRIEND_DMS => 99,
            Packets::CHO_USER_DM_BLOCKED => 100,
            Packets::CHO_TARGET_IS_SILENCED => 101,
            Packets::CHO_VERSION_UPDATE_FORCED => 102,
            Packets::CHO_SWITCH_SERVER => 103,
            Packets::CHO_ACCOUNT_RESTRICTED => 104,
            Packets::CHO_RTX => 105,
            Packets::CHO_MATCH_ABORT => 106,
            Packets::CHO_SWITCH_TOURNAMENT_SERVER => 107,
            Packets::OSU_TOURNAMENT_JOIN_MATCH_CHANNEL => 108,
            Packets::OSU_TOURNAMENT_LEAVE_MATCH_CHANNEL => 109,
        }
    }

    /// The packet type with the given id, if any.
    pub open spec fn spec_from_id(id: u16) -> Option<Packets> {
        match id {
            0 => Some(Packets::OSU_CHANGE_ACTION),
            1 => Some(Packets::OSU_SEND_PUBLIC_MESSAGE),
            2 => Some(Packets::OSU_LOGOUT),
            3 => Some(Packets::OSU_REQUEST_STATUS_UPDATE),
            4 => Some(Packets::OSU_PING),
            5 => Some(Packets::CHO_USER_ID),
            7 => Some(Packets::CHO_SEND_MESSAGE),
            8 => Some(Packets::CHO_PONG),
            9 => Some(Packets::CHO_HANDLE_IRC_CHANGE_USERNAME),
            10 => Some(Packets::CHO_HANDLE_IRC_QUIT),
            11 => Some(Packets::CHO_USER_STATS),
            12 => Some(Packets::CHO_USER_LOGOUT),
            13 => Some(Packets::CHO_SPECTATOR_JOINED),
            14 => Some(Packets::CHO_SPECTATOR_LEFT),
            15 => Some(Packets::CHO_SPECTATE_FRAMES),
            16 => Some(Packets::OSU_START_SPECTATING),
            17 => Some(Packets::OSU_STOP_SPECTATING),
            18 => Some(Packets::OSU_SPECTATE_FRAMES),
            19 => Some(Packets::CHO_VERSION_UPDATE),
            20 => Some(Packets::OSU_ERROR_REPORT),
            21 => Some(Packets::OSU_CANT_SPECTATE),
            22 => Some(Packets::CHO_SPECTATOR_CANT_SPECTATE),
            23 => Some(Packets::CHO_GET_ATTENTION),
            24 => Some(Packets::CHO_NOTIFICATION),
            25 => Some(Packets::OSU_SEND_PRIVATE_MESSAGE),
            26 => Some(Packets::CHO_UPDATE_MATCH),
            27 => Some(Packets::CHO_NEW_MATCH),
            28 => Some(Packets::CHO_DISPOSE_MATCH),
            29 => Some(Packets::OSU_PART_LOBBY),
            30 => Some(Packets::OSU_JOIN_LOBBY),
            31 => Some(Packets::OSU_CREATE_MATCH),
            32 => Some(Packets::OSU_JOIN_MATCH),
            33 => Some(Packets::OSU_PART_MATCH),
            34 => Some(Packets::CHO_TOGGLE_BLOCK_NON_FRIEND_DMS),
            36 => Some(Packets::CHO_MATCH_JOIN_SUCCESS),
            37 => Some(Packets::CHO_MATCH_JOIN_FAIL),
            38 => Some(Packets::OSU_MATCH_CHANGE_SLOT),
            39 => Some(Packets::OSU_MATCH_READY),
            40 => Some(Packets::OSU_MATCH_LOCK),
            41 => Some(Packets::OSU_MATCH_CHANGE_SETTINGS),
            42 => Some(Packets::CHO_FELLOW_SPECTATOR_JOINED),
            43 => Some(Packets::CHO_FELLOW_SPECTATOR_LEFT),
            44 => Some(Packets::OSU_MATCH_START),
            45 => Some(Packets::CHO_ALL_PLAYERS_LOADED),
            46 => Some(Packets::CHO_MATCH_START),
            47 => Some(Packets::OSU_MATCH_SCORE_UPDATE),
            48 => Some(Packets::CHO_MATCH_SCORE_UPDATE),
            49 => Some(Packets::OSU_MATCH_COMPLETE),
            50 => Some(Packets::CHO_MATCH_TRANSFER_HOST),
            51 => Some(Packets::OSU_MATCH_CHANGE_MODS),
            52 => Some(Packets::OSU_MATCH_LOAD_COMPLETE),
            53 => Some(Packets::CHO_MATCH_ALL_PLAYERS_LOADED),
            54 => Some(Packets::OSU_MATCH_NO_BEATMAP),
            55 => Some(Packets::OSU_MATCH_NOT_READY),
            56 => Some(Packets::OSU_MATCH_FAILED),
            57 => Some(Packets::CHO_MATCH_PLAYER_FAILED),
            58 => Some(Packets::CHO_MATCH_COMPLETE),
            59 => Some(Packets::OSU_MATCH_HAS_BEATMAP),
            60 => Some(Packets::OSU_MATCH_SKIP_REQUEST),
            61 => Some(Packets::CHO_MATCH_SKIP),
            62 => Some(Packets::CHO_UNAUTHORIZED),
            63 => Some(Packets::OSU_CHANNEL_JOIN),
            64 => Some(Packets::CHO_CHANNEL_JOIN_SUCCESS),
            65 => Some(Packets::CHO_CHANNEL_INFO),
            66 => Some(Packets::CHO_CHANNEL_KICK),
            67 => Some(Packets::CHO_CHANNEL_AUTO_JOIN),
            68 => Some(Packets::OSU_BEATMAP_INFO_REQUEST),
            69 => Some(Packets::CHO_BEATMAP_INFO_REPLY),
            70 => Some(Packets::OSU_MATCH_TRANSFER_HOST),
            71 => Some(Packets::CHO_PRIVILEGES),
            72 => Some(Packets::CHO_FRIENDS_LIST),
            73 => Some(Packets::OSU_FRIEND_ADD),
            74 => Some(Packets::OSU_FRIEND_REMOVE),
            75 => Some(Packets::CHO_PROTOCOL_VERSION),
            76 => Some(Packets::CHO_MAIN_MENU_ICON),
            77 => Some(Packets::OSU_MATCH_CHANGE_TEAM),
            78 => Some(Packets::OSU_CHANNEL_PART),
            79 => Some(Packets::OSU_RECEIVE_UPDATES),
            80 => Some(Packets::CHO_MONITOR),
            81 => Some(Packets::CHO_MATCH_PLAYER_SKIPPED),
            82 => Some(Packets::OSU_SET_AWAY_MESSAGE),
            83 => Some(Packets::CHO_USER_PRESENCE),
            84 => Some(Packets::OSU_IRC_ONLY),
            85 => Some(Packets::OSU_USER_STATS_REQUEST),
            86 => Some(Packets::CHO_RESTART),
            87 => Some(Packets::OSU_MATCH_INVITE),
            88 => Some(Packets::CHO_MATCH_INVITE),
            89 => Some(Packets::CHO_CHANNEL_INFO_END),
            90 => Some(Packets::OSU_MATCH_CHANGE_PASSWORD),
            91 => Some(Packets::CHO_MATCH_CHANGE_PASSWORD),
            92 => Some(Packets::CHO_SILENCE_END),
            93 => Some(Packets::OSU_TOURNAMENT_MATCH_INFO_REQUEST),
            94 => Some(Packets::CHO_USER_SILENCED),
            95 => Some(Packets::CHO_USER_PRESENCE_SINGLE),
            96 => Some(Packets::CHO_USER_PRESENCE_BUNDLE),
            97 => Some(Packets::OSU_USER_PRESENCE_REQUEST),
            98 => Some(Packets::OSU_USER_PRESENCE_REQUEST_ALL),
            99 => Some(Packets::OSU_TOGGLE_BLOCK_NON_FRIEND_DMS),
            100 => Some(Packets::CHO_USER_DM_BLOCKED),
            101 => Some(Packets::CHO_TARGET_IS_SILENCED),
            102 => Some(Packets::CHO_VERSION_UPDATE_FORCED),
            103 => Some(Packets::CHO_SWITCH_SERVER),
            104 => Some(Packets::CHO_ACCOUNT_RESTRICTED),
            105 => Some(Packets::CHO_RTX),
            106 => Some(Packets::CHO_MATCH_ABORT),
            107 => Some(Packets::CHO_SWITCH_TOURNAMENT_SERVER),
            108 => Some(Packets::OSU_TOURNAMENT_JOIN_MATCH_CHANNEL),
            109 => Some(Packets::OSU_TOURNAMENT_LEAVE_MATCH_CHANNEL),
            _ => None,
        }
    }

    /// The packet type's wire id.
    pub fn id(self) -> (r: u16)
        ensures
            r == self.spec_id(),
    {
        match self {
            Packets::OSU_CHANGE_ACTION => 0,
            Packets::OSU_SEND_PUBLIC_MESSAGE => 1,
            Packets::OSU_LOGOUT => 2,
            Packets::OSU_REQUEST_STATUS_UPDATE => 3,
            Packets::OSU_PING => 4,
            Packets::CHO_USER_ID => 5,
            Packets::CHO_SEND_MESSAGE => 7,
            Packets::CHO_PONG => 8,
            Packets::CHO_HANDLE_IRC_CHANGE_USERNAME => 9,
            Packets::CHO_HANDLE_IRC_QUIT => 10,
            Packets::CHO_USER_STATS => 11,
            Packets::CHO_USER_LOGOUT => 12,
            Packets::CHO_SPECTATOR_JOINED => 13,
            Packets::CHO_SPECTATOR_LEFT => 14,
            Packets::CHO_SPECTATE_FRAMES => 15,
            Packets::OSU_START_SPECTATING => 16,
            Packets::OSU_STOP_SPECTATING => 17,
            Packets::OSU_SPECTATE_FRAMES => 18,
            Packets::CHO_VERSION_UPDATE => 19,
            Packets::OSU_ERROR_REPORT => 20,
            Packets::OSU_CANT_SPECTATE => 21,
            Packets::CHO_SPECTATOR_CANT_SPECTATE => 22,
            Packets::CHO_GET_ATTENTION => 23,
            Packets::CHO_NOTIFICATION => 24,
            Packets::OSU_SEND_PRIVATE_MESSAGE => 25,
            Packets::CHO_UPDATE_MATCH => 26,
            Packets::CHO_NEW_MATCH => 27,
            Packets::CHO_DISPOSE_MATCH => 28,
            Packets::OSU_PART_LOBBY => 29,
            Packets::OSU_JOIN_LOBBY => 30,
            Packets::OSU_CREATE_MATCH => 31,
            Packets::OSU_JOIN_MATCH => 32,
            Packets::OSU_PART_MATCH => 33,
            Packets::CHO_TOGGLE_BLOCK_NON_FRIEND_DMS => 34,
            Packets::CHO_MATCH_JOIN_SUCCESS => 36,
            Packets::CHO_MATCH_JOIN_FAIL => 37,
            Packets::OSU_MATCH_CHANGE_SLOT => 38,
            Packets::OSU_MATCH_READY => 39,
            Packets::OSU_MATCH_LOCK => 40,
            Packets::OSU_MATCH_CHANGE_SETTINGS => 41,
            Packets::CHO_FELLOW_SPECTATOR_JOINED => 42,
            Packets::CHO_FELLOW_SPECTATOR_LEFT => 43,
            Packets::OSU_MATCH_START => 44,
            Packets::CHO_ALL_PLAYERS_LOADED => 45,
            Packets::CHO_MATCH_START => 46,
            Packets::OSU_MATCH_SCORE_UPDATE => 47,
            Packets::CHO_MATCH_SCORE_UPDATE => 48,
            Packets::OSU_MATCH_COMPLETE => 49,
            Packets::CHO_MATCH_TRANSFER_HOST => 50,
            Packets::OSU_MATCH_CHANGE_MODS => 51,
            Packets::OSU_MATCH_LOAD_COMPLETE => 52,
            Packets::CHO_MATCH_ALL_PLAYERS_LOADED => 53,
            Packets::OSU_MATCH_NO_BEATMAP => 54,
            Packets::OSU_MATCH_NOT_READY => 55,
            Packets::OSU_MATCH_FAILED => 56,
            Packets::CHO_MATCH_PLAYER_FAILED => 57,
            Packets::CHO_MATCH_COMPLETE => 58,
            Packets::OSU_MATCH_HAS_BEATMAP => 59,
            Packets::OSU_MATCH_SKIP_REQUEST => 60,
            Packets::CHO_MATCH_SKIP => 61,
            Packets::CHO_UNAUTHORIZED => 62,
            Packets::OSU_CHANNEL_JOIN => 63,
            Packets::CHO_CHANNEL_JOIN_SUCCESS => 64,
            Packets::CHO_CHANNEL_INFO => 65,
            Packets::CHO_CHANNEL_KICK => 66,
            Packets::CHO_CHANNEL_AUTO_JOIN => 67,
            Packets::OSU_BEATMAP_INFO_REQUEST => 68,
            Packets::CHO_BEATMAP_INFO_REPLY => 69,
            Packets::OSU_MATCH_TRANSFER_HOST => 70,
            Packets::CHO_PRIVILEGES => 71,
            Packets::CHO_FRIENDS_LIST => 72,
            Packets::OSU_FRIEND_ADD => 73,
            Packets::OSU_FRIEND_REMOVE => 74,
            Packets::CHO_PROTOCOL_VERSION => 75,
            Packets::CHO_MAIN_MENU_ICON => 76,
            Packets::OSU_MATCH_CHANGE_TEAM => 77,
            Packets::OSU_CHANNEL_PART => 78,
            Packets::OSU_RECEIVE_UPDATES => 79,
            Packets::CHO_MONITOR => 80,
            Packets::CHO_MATCH_PLAYER_SKIPPED => 81,
            Packets::OSU_SET_AWAY_MESSAGE => 82,
            Packets::CHO_USER_PRESENCE => 83,
            Packets::OSU_IRC_ONLY => 84,
            Packets::OSU_USER_STATS_REQUEST => 85,
            Packets::CHO_RESTART => 86,
            Packets::OSU_MATCH_INVITE => 87,
            Packets::CHO_MATCH_INVITE => 88,
            Packets::CHO_CHANNEL_INFO_END => 89,
            Packets::OSU_MATCH_CHANGE_PASSWORD => 90,
            Packets::CHO_MATCH_CHANGE_PASSWORD => 91,
            Packets::CHO_SILENCE_END => 92,
            Packets::OSU_TOURNAMENT_MATCH_INFO_REQUEST => 93,
            Packets::CHO_USER_SILENCED => 94,
            Packets::CHO_USER_PRESENCE_SINGLE => 95,
            Packets::CHO_USER_PRESENCE_BUNDLE => 96,
            Packets::OSU_USER_PRESENCE_REQUEST => 97,
            Packets::OSU_USER_PRESENCE_REQUEST_ALL => 98,
            Packets::OSU_TOGGLE_BLOCK_NON_FRIEND_DMS => 99,
            Packets::CHO_USER_DM_BLOCKED => 100,
            Packets::CHO_TARGET_IS_SILENCED => 101,
            Packets::CHO_VERSION_UPDATE_FORCED => 102,
            Packets::CHO_SWITCH_SERVER => 103,
            Packets::CHO_ACCOUNT_RESTRICTED => 104,
            Packets::CHO_RTX => 105,
            Packets::CHO_MATCH_ABORT => 106,
            Packets::CHO_SWITCH_TOURNAMENT_SERVER => 107,
            Packets::OSU_TOURNAMENT_JOIN_MATCH_CHANNEL => 108,
            Packets::OSU_TOURNAMENT_LEAVE_MATCH_CHANNEL => 109,
        }
    }

    /// The packet type with the given id; `None` for an id no type has.
    pub fn from_i32(id: i32) -> (r: Option<Packets>)
        ensures
            r == (if 0 <= id <= u16::MAX {
                Self::spec_from_id(id as u16)
            } else {
                None
            }),
            r matches Some(p) ==> p.spec_id() == id,
    {
        match id {
            0 => Some(Packets::OSU_CHANGE_ACTION),
            1 => Some(Packets::OSU_SEND_PUBLIC_MESSAGE),
            2 => Some(Packets::OSU_LOGOUT),
            3 => Some(Packets::OSU_REQUEST_STATUS_UPDATE),
            4 => Some(Packets::OSU_PING),
            5 => Some(Packets::CHO_USER_ID),
            7 => Some(Packets::CHO_SEND_MESSAGE),
            8 => Some(Packets::CHO_PONG),
            9 => Some(Packets::CHO_HANDLE_IRC_CHANGE_USERNAME),
            10 => Some(Packets::CHO_HANDLE_IRC_QUIT),
            11 => Some(Packets::CHO_USER_STATS),
            12 => Some(Packets::CHO_USER_LOGOUT),
            13 => Some(Packets::CHO_SPECTATOR_JOINED),
            14 => Some(Packets::CHO_SPECTATOR_LEFT),
            15 => Some(Packets::CHO_SPECTATE_FRAMES),
            16 => Some(Packets::OSU_START_SPECTATING),
            17 => Some(Packets::OSU_STOP_SPECTATING),
            18 => Some(Packets::OSU_SPECTATE_FRAMES),
            19 => Some(Packets::CHO_VERSION_UPDATE),
            20 => Some(Packets::OSU_ERROR_REPORT),
            21 => Some(Packets::OSU_CANT_SPECTATE),
            22 => Some(Packets::CHO_SPECTATOR_CANT_SPECTATE),
            23 => Some(Packets::CHO_GET_ATTENTION),
            24 => Some(Packets::CHO_NOTIFICATION),
            25 => Some(Packets::OSU_SEND_PRIVATE_MESSAGE),
            26 => Some(Packets::CHO_UPDATE_MATCH),
            27 => Some(Packets::CHO_NEW_MATCH),
            28 => Some(Packets::CHO_DISPOSE_MATCH),
            29 => Some(Packets::OSU_PART_LOBBY),
            30 => Some(Packets::OSU_JOIN_LOBBY),
            31 => Some(Packets::OSU_CREATE_MATCH),
            32 => Some(Packets::OSU_JOIN_MATCH),
            33 => Some(Packets::OSU_PART_MATCH),
            34 => Some(Packets::CHO_TOGGLE_BLOCK_NON_FRIEND_DMS),
            36 => Some(Packets::CHO_MATCH_JOIN_SUCCESS),
            37 => Some(Packets::CHO_MATCH_JOIN_FAIL),
            38 => Some(Packets::OSU_MATCH_CHANGE_SLOT),
            39 => Some(Packets::OSU_MATCH_READY),
            40 => Some(Packets::OSU_MATCH_LOCK),
            41 => Some(Packets::OSU_MATCH_CHANGE_SETTINGS),
            42 => Some(Packets::CHO_FELLOW_SPECTATOR_JOINED),
            43 => Some(Packets::CHO_FELLOW_SPECTATOR_LEFT),
            44 => Some(Packets::OSU_MATCH_START),
            45 => Some(Packets::CHO_ALL_PLAYERS_LOADED),
            46 => Some(Packets::CHO_MATCH_START),
            47 => Some(Packets::OSU_MATCH_SCORE_UPDATE),
            48 => Some(Packets::CHO_MATCH_SCORE_UPDATE),
            49 => Some(Packets::OSU_MATCH_COMPLETE),
            50 => Some(Packets::CHO_MATCH_TRANSFER_HOST),
            51 => Some(Packets::OSU_MATCH_CHANGE_MODS),
            52 => Some(Packets::OSU_MATCH_LOAD_COMPLETE),
            53 => Some(Packets::CHO_MATCH_ALL_PLAYERS_LOADED),
            54 => Some(Packets::OSU_MATCH_NO_BEATMAP),
            55 => Some(Packets::OSU_MATCH_NOT_READY),
            56 => Some(Packets::OSU_MATCH_FAILED),
            57 => Some(Packets::CHO_MATCH_PLAYER_FAILED),
            58 => Some(Packets::CHO_MATCH_COMPLETE),
            59 => Some(Packets::OSU_MATCH_HAS_BEATMAP),
            60 => Some(Packets::OSU_MATCH_SKIP_REQUEST),
            61 => Some(Packets::CHO_MATCH_SKIP),
            62 => Some(Packets::CHO_UNAUTHORIZED),
            63 => Some(Packets::OSU_CHANNEL_JOIN),
            64 => Some(Packets::CHO_CHANNEL_JOIN_SUCCESS),
            65 => Some(Packets::CHO_CHANNEL_INFO),
            66 => Some(Packets::CHO_CHANNEL_KICK),
            67 => Some(Packets::CHO_CHANNEL_AUTO_JOIN),
            68 => Some(Packets::OSU_BEATMAP_INFO_REQUEST),
            69 => Some(Packets::CHO_BEATMAP_INFO_REPLY),
            70 => Some(Packets::OSU_MATCH_TRANSFER_HOST),
            71 => Some(Packets::CHO_PRIVILEGES),
            72 => Some(Packets::CHO_FRIENDS_LIST),
            73 => Some(Packets::OSU_FRIEND_ADD),
            74 => Some(Packets::OSU_FRIEND_REMOVE),
            75 => Some(Packets::CHO_PROTOCOL_VERSION),
            76 => Some(Packets::CHO_MAIN_MENU_ICON),
            77 => Some(Packets::OSU_MATCH_CHANGE_TEAM),
            78 => Some(Packets::OSU_CHANNEL_PART),
            79 => Some(Packets::OSU_RECEIVE_UPDATES),
            80 => Some(Packets::CHO_MONITOR),
            81 => Some(Packets::CHO_MATCH_PLAYER_SKIPPED),
            82 => Some(Packets::OSU_SET_AWAY_MESSAGE),
            83 => Some(Packets::CHO_USER_PRESENCE),
            84 => Some(Packets::OSU_IRC_ONLY),
            85 => Some(Packets::OSU_USER_STATS_REQUEST),
            86 => Some(Packets::CHO_RESTART),
            87 => Some(Packets::OSU_MATCH_INVITE),
            88 => Some(Packets::CHO_MATCH_INVITE),
            89 => Some(Packets::CHO_CHANNEL_INFO_END),
            90 => Some(Packets::OSU_MATCH_CHANGE_PASSWORD),
            91 => Some(Packets::CHO_MATCH_CHANGE_PASSWORD),
            92 => Some(Packets::CHO_SILENCE_END),
            93 => Some(Packets::OSU_TOURNAMENT_MATCH_INFO_REQUEST),
            94 => Some(Packets::CHO_USER_SILENCED),
            95 => Some(Packets::CHO_USER_PRESENCE_SINGLE),
            96 => Some(Packets::CHO_USER_PRESENCE_BUNDLE),
            97 => Some(Packets::OSU_USER_PRESENCE_REQUEST),
            98 => Some(Packets::OSU_USER_PRESENCE_REQUEST_ALL),
            99 => Some(Packets::OSU_TOGGLE_BLOCK_NON_FRIEND_DMS),
            100 => Some(Packets::CHO_USER_DM_BLOCKED),
            101 => Some(Packets::CHO_TARGET_IS_SILENCED),
            102 => Some(Packets::CHO_VERSION_UPDATE_FORCED),
            103 => Some(Packets::CHO_SWITCH_SERVER),
            104 => Some(Packets::CHO_ACCOUNT_RESTRICTED),
            105 => Some(Packets::CHO_RTX),
            106 => Some(Packets::CHO_MATCH_ABORT),
            107 => Some(Packets::CHO_SWITCH_TOURNAMENT_SERVER),
            108 => Some(Packets::OSU_TOURNAMENT_JOIN_MATCH_CHANNEL),
            109 => Some(Packets::OSU_TOURNAMENT_LEAVE_MATCH_CHANNEL),
            _ => None,
        }
    }
}

/// Every packet type's id leads back to it.
pub proof fn lemma_packet_id_round_trip(p: Packets)
    ensures
        Packets::spec_from_id(p.spec_id()) == Some(p),
{
}

/// ISO country codes and the geolocation byte that stands for each.
#[derive(Clone, Copy, Debug, PartialEq, Eq, Structural)]
pub enum CountryCodes {
    UN,
    OC,
    EU,
    AD,
    AE,
    AF,
    AG,
    AI,
    AL,
    AM,
    AN,
    AO,
    AQ,
    AR,
    AS,
    AT,
    AU,
    AW,
    AZ,
    BA,
    BB,
    BD,
    BE,
    BF,
    BG,
    BH,
    BI,
    BJ,
    BM,
    BN,
    BO,
    BR,
    BS,
    BT,
    BV,
    BW,
    BY,
    BZ,
    CA,
    CC,
    CD,
    CF,
    CG,
    CH,
    CI,
    CK,
    CL,
    CM,
    CN,
    CO,
    CR,
    CU,
    CV,
    CX,
    CY,
    CZ,
    DE,
    DJ,
    DK,
    DM,
    DO,
    DZ,
    EC,
    EE,
    EG,
    EH,
    ER,
    ES,
    ET,
    FI,
    FJ,
    FK,
    FM,
    FO,
    FR,
    FX,
    GA,
    GB,
    GD,
    GE,
    GF,
    GH,
    GI,
    GL,
    GM,
    GN,
    GP,
    GQ,
    GR,
    GS,
    GT,
    GU,
    GW,
    GY,
    HK,
    HM,
    HN,
    HR,
    HT,
    HU,
    ID,
    IE,
    IL,
    IN,
    IO,
    IQ,
    IR,
    IS,
    IT,
    JM,
    JO,
    JP,
    KE,
    KG,
    KH,
    KI,
    KM,
    KN,
    KP,
    KR,
    KW,
    KY,
    KZ,
    LA,
    LB,
    LC,
    LI,
    LK,
    LR,
    LS,
    LT,
    LU,
    LV,
    LY,
    MA,
    MC,
    MD,
    MG,
    MH,
    MK,
    ML,
    MM,
    MN,
    MO,
    MP,
    MQ,
    MR,
    MS,
    MT,
    MU,
    MV,
    MW,
    MX,
    MY,
    MZ,
    NA,
    NC,
    NE,
    NF,
    NG,
    NI,
    NL,
    NO,
    NP,
    NR,
    NU,
    NZ,
    OM,
    PA,
    PE,
    PF,
    PG,
    PH,
    PK,
    PL,
    PM,
    PN,
    PR,
    PS,
    PT,
    PW,
    PY,
    QA,
    RE,
    RO,
    RU,
    RW,
    SA,
    SB,
    SC,
    SD,
    SE,
    SG,
    SH,
    SI,
    SJ,
    SK,
    SL,
    SM,
    SN,
    SO,
    SR,
    ST,
    SV,
    SY,
    SZ,
    TC,
    TD,
    TF,
    TG,
    TH,
    TJ,
    TK,
    TM,
    TN,
    TO,
    TL,
    TR,
    TT,
    TV,
    TW,
    TZ,
    UA,
    UG,
    UM,
    US,
    UY,
    UZ,
    VA,
    VC,
    VE,
    VG,
    VI,
    VN,
    VU,
    WF,
    WS,
    YE,
    YT,
    RS,
    ZA,
    ZM,
    ME,
    ZW,
    XX,
    A2,
    O1,
    AX,
    GG,
    IM,
    JE,
    BL,
    MF,
}

impl CountryCodes {
    /// The byte sent for the country.
    pub open spec fn spec_value(self) -> u8 {
        match self {
            CountryCodes::UN => 0,
            CountryCodes::OC => 1,
            CountryCodes::EU => 2,
            CountryCodes::AD => 3,
            CountryCodes::AE => 4,
            CountryCodes::AF => 5,
            CountryCodes::AG => 6,
            CountryCodes::AI => 7,
            CountryCodes::AL => 8,
            CountryCodes::AM => 9,
            CountryCodes::AN => 10,
            CountryCodes::AO => 11,
            CountryCodes::AQ => 12,
            CountryCodes::AR => 13,
            CountryCodes::AS => 14,
            CountryCodes::AT => 15,
            CountryCodes::AU => 16,
            CountryCodes::AW => 17,
            CountryCodes::AZ => 18,
            CountryCodes::BA => 19,
            CountryCodes::BB => 20,
            CountryCodes::BD => 21,
            CountryCodes::BE => 22,
            CountryCodes::BF => 23,
            CountryCodes::BG => 24,
            CountryCodes::BH => 25,
            CountryCodes::BI => 26,
            CountryCodes::BJ => 27,
            CountryCodes::BM => 28,
            CountryCodes::BN => 29,
            CountryCodes::BO => 30,
            CountryCodes::BR => 31,
            CountryCodes::BS => 32,
            CountryCodes::BT => 33,
            CountryCodes::BV => 34,
            CountryCodes::BW => 35,
            CountryCodes::BY => 36,
            CountryCodes::BZ => 37,
            CountryCodes::CA => 38,
            CountryCodes::CC => 39,
            CountryCodes::CD => 40,
            CountryCodes::CF => 41,
            CountryCodes::CG => 42,
            CountryCodes::CH => 43,
            CountryCodes::CI => 44,
            CountryCodes::CK => 45,
            CountryCodes::CL => 46,
            CountryCodes::CM => 47,
            CountryCodes::CN => 48,
            CountryCodes::CO => 49,
            CountryCodes::CR => 50,
            CountryCodes::CU => 51,
            CountryCodes::CV => 52,
            CountryCodes::CX => 53,
            CountryCodes::CY => 54,
            CountryCodes::CZ => 55,
            CountryCodes::DE => 56,
            CountryCodes::DJ => 57,
            CountryCodes::DK => 58,
            CountryCodes::DM => 59,
            CountryCodes::DO => 60,
            CountryCodes::DZ => 61,
            CountryCodes::EC => 62,
            CountryCodes::EE => 63,
            CountryCodes::EG => 64,
            CountryCodes::EH => 65,
            CountryCodes::ER => 66,
            CountryCodes::ES => 67,
            CountryCodes::ET => 68,
            CountryCodes::FI => 69,
            CountryCodes::FJ => 70,
            CountryCodes::FK => 71,
            CountryCodes::FM => 72,
            CountryCodes::FO => 73,
            CountryCodes::FR => 74,
            CountryCodes::FX => 75,
            CountryCodes::GA => 76,
            CountryCodes::GB => 77,
            CountryCodes::GD => 78,
            CountryCodes::GE => 79,
            CountryCodes::GF => 80,
            CountryCodes::GH => 81,
            CountryCodes::GI => 82,
            CountryCodes::GL => 83,
            CountryCodes::GM => 84,
            CountryCodes::GN => 85,
            CountryCodes::GP => 86,
            CountryCodes::GQ => 87,
            CountryCodes::GR => 88,
            CountryCodes::GS => 89,
            CountryCodes::GT => 90,
            CountryCodes::GU => 91,
            CountryCodes::GW => 92,
            CountryCodes::GY => 93,
            CountryCodes::HK => 94,
            CountryCodes::HM => 95,
            CountryCodes::HN => 96,
            CountryCodes::HR => 97,
            CountryCodes::HT => 98,
            CountryCodes::HU => 99,
            CountryCodes::ID => 100,
            CountryCodes::IE => 101,
            CountryCodes::IL => 102,
            CountryCodes::IN => 103,
            CountryCodes::IO => 104,
            CountryCodes::IQ => 105,
            CountryCodes::IR => 106,
            CountryCodes::IS => 107,
            CountryCodes::IT => 108,
            CountryCodes::JM => 109,
            CountryCodes::JO => 110,
            CountryCodes::JP => 111,
            CountryCodes::KE => 112,
            CountryCodes::KG => 113,
            CountryCodes::KH => 114,
            CountryCodes::KI => 115,
            CountryCodes::KM => 116,
            CountryCodes::KN => 117,
            CountryCodes::KP => 118,
            CountryCodes::KR => 119,
            CountryCodes::KW => 120,
            CountryCodes::KY => 121,
            CountryCodes::KZ => 122,
            CountryCodes::LA => 123,
            CountryCodes::LB => 124,
            CountryCodes::LC => 125,
            CountryCodes::LI => 126,
            CountryCodes::LK => 127,
            CountryCodes::LR => 128,
            CountryCodes::LS => 129,
            CountryCodes::LT => 130,
            CountryCodes::LU => 131,
            CountryCodes::LV => 132,
            CountryCodes::LY => 133,
            CountryCodes::MA => 134,
            CountryCodes::MC => 135,
            CountryCodes::MD => 136,
            CountryCodes::MG => 137,
            CountryCodes::MH => 138,
            CountryCodes::MK => 139,
            CountryCodes::ML => 140,
            CountryCodes::MM => 141,
            CountryCodes::MN => 142,
            CountryCodes::MO => 143,
            CountryCodes::MP => 144,
            CountryCodes::MQ => 145,
            CountryCodes::MR => 146,
            CountryCodes::MS => 147,
            CountryCodes::MT => 148,
            CountryCodes::MU => 149,
            CountryCodes::MV => 150,
            CountryCodes::MW => 151,
            CountryCodes::MX => 152,
            CountryCodes::MY => 153,
            CountryCodes::MZ => 154,
            CountryCodes::NA => 155,
            CountryCodes::NC => 156,
            CountryCodes::NE => 157,
            CountryCodes::NF => 158,
            CountryCodes::NG => 159,
            CountryCodes::NI => 160,
            CountryCodes::NL => 161,
            CountryCodes::NO => 162,
            CountryCodes::NP => 163,
            CountryCodes::NR => 164,
            CountryCodes::NU => 165,
            CountryCodes::NZ => 166,
            CountryCodes::OM => 167,
            CountryCodes::PA => 168,
            CountryCodes::PE => 169,
            CountryCodes::PF => 170,
            CountryCodes::PG => 171,
            CountryCodes::PH => 172,
            CountryCodes::PK => 173,
            CountryCodes::PL => 174,
            CountryCodes::PM => 175,
            CountryCodes::PN => 176,
            CountryCodes::PR => 177,
            CountryCodes::PS => 178,
            CountryCodes::PT => 179,
            CountryCodes::PW => 180,
            CountryCodes::PY => 181,
            CountryCodes::QA => 182,
            CountryCodes::RE => 183,
            CountryCodes::RO => 184,
            CountryCodes::RU => 185,
            CountryCodes::RW => 186,
            CountryCodes::SA => 187,
            CountryCodes::SB => 188,
            CountryCodes::SC => 189,
            CountryCodes::SD => 190,
            CountryCodes::SE => 191,
            CountryCodes::SG => 192,
            CountryCodes::SH => 193,
            CountryCodes::SI => 194,
            CountryCodes::SJ => 195,
            CountryCodes::SK => 196,
            CountryCodes::SL => 197,
            CountryCodes::SM => 198,
            CountryCodes::SN => 199,
            CountryCodes::SO => 200,
            CountryCodes::SR => 201,
            CountryCodes::ST => 202,
            CountryCodes::SV => 203,
            CountryCodes::SY => 204,
            CountryCodes::SZ => 205,
            CountryCodes::TC => 206,
            CountryCodes::TD => 207,
            CountryCodes::TF => 208,
            CountryCodes::TG => 209,
            CountryCodes::TH => 210,
            CountryCodes::TJ => 211,
            CountryCodes::TK => 212,
            CountryCodes::TM => 213,
            CountryCodes::TN => 214,
            CountryCodes::TO => 215,
            CountryCodes::TL => 216,
            CountryCodes::TR => 217,
            CountryCodes::TT => 218,
            CountryCodes::TV => 219,
            CountryCodes::TW => 220,
            CountryCodes::TZ => 221,
            CountryCodes::UA => 222,
            CountryCodes::UG => 223,
            CountryCodes::UM => 224,
            CountryCodes::US => 225,
            CountryCodes::UY => 226,
            CountryCodes::UZ => 227,
            CountryCodes::VA => 228,
            CountryCodes::VC => 229,
            CountryCodes::VE => 230,
            CountryCodes::VG => 231,
            CountryCodes::VI => 232,
            CountryCodes::VN => 233,
            CountryCodes::VU => 234,
            CountryCodes::WF => 235,
            CountryCodes::WS => 236,
            CountryCodes::YE => 237,
            CountryCodes::YT => 238,
            CountryCodes::RS => 239,
            CountryCodes::ZA => 240,
            CountryCodes::ZM => 241,
            CountryCodes::ME => 242,
            CountryCodes::ZW => 243,
            CountryCodes::XX => 244,
            CountryCodes::A2 => 245,
            CountryCodes::O1 => 246,
            CountryCodes::AX => 247,
            CountryCodes::GG => 248,
            CountryCodes::IM => 249,
            CountryCodes::JE => 250,
            CountryCodes::BL => 251,
            CountryCodes::MF => 252,
        }
    }

    /// The country that a two-letter upper-case code names.
    pub open spec fn spec_from_code(b: Seq<u8>) -> Option<CountryCodes> {
        if b.len() != 2 {
            None
        } else {
            match (b[0], b[1]) {
                (85, 78) => Some(CountryCodes::UN),
                (79, 67) => Some(CountryCodes::OC),
                (69, 85) => Some(CountryCodes::EU),
                (65, 68) => Some(CountryCodes::AD),
                (65, 69) => Some(CountryCodes::AE),
                (65, 70) => Some(CountryCodes::AF),
                (65, 71) => Some(CountryCodes::AG),
                (65, 73) => Some(CountryCodes::AI),
                (65, 76) => Some(CountryCodes::AL),
                (65, 77) => Some(CountryCodes::AM),
                (65, 78) => Some(CountryCodes::AN),
                (65, 79) => Some(CountryCodes::AO),
                (65, 81) => Some(CountryCodes::AQ),
                (65, 82) => Some(CountryCodes::AR),
                (65, 83) => Some(CountryCodes::AS),
                (65, 84) => Some(CountryCodes::AT),
                (65, 85) => Some(CountryCodes::AU),
                (65, 87) => Some(CountryCodes::AW),
                (65, 90) => Some(CountryCodes::AZ),
                (66, 65) => Some(CountryCodes::BA),
                (66, 66) => Some(CountryCodes::BB),
                (66, 68) => Some(CountryCodes::BD),
                (66, 69) => Some(CountryCodes::BE),
                (66, 70) => Some(CountryCodes::BF),
                (66, 71) => Some(CountryCodes::BG),
                (66, 72) => Some(CountryCodes::BH),
                (66, 73) => Some(CountryCodes::BI),
                (66, 74) => Some(CountryCodes::BJ),
                (66, 77) => Some(CountryCodes::BM),
                (66, 78) => Some(CountryCodes::BN),
                (66, 79) => Some(CountryCodes::BO),
                (66, 82) => Some(CountryCodes::BR),
                (66, 83) => Some(CountryCodes::BS),
                (66, 84) => Some(CountryCodes::BT),
                (66, 86) => Some(CountryCodes::BV),
                (66, 87) => Some(CountryCodes::BW),
                (66, 89) => Some(CountryCodes::BY),
                (66, 90) => Some(CountryCodes::BZ),
                (67, 65) => Some(CountryCodes::CA),
                (67, 67) => Some(CountryCodes::CC),
                (67, 68) => Some(CountryCodes::CD),
                (67, 70) => Some(CountryCodes::CF),
                (67, 71) => Some(CountryCodes::CG),
                (67, 72) => Some(CountryCodes::CH),
                (67, 73) => Some(CountryCodes::CI),
                (67, 75) => Some(CountryCodes::CK),
                (67, 76) => Some(CountryCodes::CL),
                (67, 77) => Some(CountryCodes::CM),
                (67, 78) => Some(CountryCodes::CN),
                (67, 79) => Some(CountryCodes::CO),
                (67, 82) => Some(CountryCodes::CR),
                (67, 85) => Some(CountryCodes::CU),
                (67, 86) => Some(CountryCodes::CV),
                (67, 88) => Some(CountryCodes::CX),
                (67, 89) => Some(CountryCodes::CY),
                (67, 90) => Some(CountryCodes::CZ),
                (68, 69) => Some(CountryCodes::DE),
                (68, 74) => Some(CountryCodes::DJ),
                (68, 75) => Some(CountryCodes::DK),
                (68, 77) => Some(CountryCodes::DM),
                (68, 79) => Some(CountryCodes::DO),
                (68, 90) => Some(CountryCodes::DZ),
                (69, 67) => Some(CountryCodes::EC),
                (69, 69) => Some(CountryCodes::EE),
                (69, 71) => Some(CountryCodes::EG),
                (69, 72) => Some(CountryCodes::EH),
                (69, 82) => Some(CountryCodes::ER),
                (69, 83) => Some(CountryCodes::ES),
                (69, 84) => Some(CountryCodes::ET),
                (70, 73) => Some(CountryCodes::FI),
                (70, 74) => Some(CountryCodes::FJ),
                (70, 75) => Some(CountryCodes::FK),
                (70, 77) => Some(CountryCodes::FM),
                (70, 79) => Some(CountryCodes::FO),
                (70, 82) => Some(CountryCodes::FR),
                (70, 88) => Some(CountryCodes::FX),
                (71, 65) => Some(CountryCodes::GA),
                (71, 66) => Some(CountryCodes::GB),
                (71, 68) => Some(CountryCodes::GD),
                (71, 69) => Some(CountryCodes::GE),
                (71, 70) => Some(CountryCodes::GF),
                (71, 72) => Some(CountryCodes::GH),
                (71, 73) => Some(CountryCodes::GI),
                (71, 76) => Some(CountryCodes::GL),
                (71, 77) => Some(CountryCodes::GM),
                (71, 78) => Some(CountryCodes::GN),
                (71, 80) => Some(CountryCodes::GP),
                (71, 81) => Some(CountryCodes::GQ),
                (71, 82) => Some(CountryCodes::GR),
                (71, 83) => Some(CountryCodes::GS),
                (71, 84) => Some(CountryCodes::GT),
                (71, 85) => Some(CountryCodes::GU),
                (71, 87) => Some(CountryCodes::GW),
                (71, 89) => Some(CountryCodes::GY),
                (72, 75) => Some(CountryCodes::HK),
                (72, 77) => Some(CountryCodes::HM),
                (72, 78) => Some(CountryCodes::HN),
                (72, 82) => Some(CountryCodes::HR),
                (72, 84) => Some(CountryCodes::HT),
                (72, 85) => Some(CountryCodes::HU),
                (73, 68) => Some(CountryCodes::ID),
                (73, 69) => Some(CountryCodes::IE),
                (73, 76) => Some(CountryCodes::IL),
                (73, 78) => Some(CountryCodes::IN),
                (73, 79) => Some(CountryCodes::IO),
                (73, 81) => Some(CountryCodes::IQ),
                (73, 82) => Some(CountryCodes::IR),
                (73, 83) => Some(CountryCodes::IS),
                (73, 84) => Some(CountryCodes::IT),
                (74, 77) => Some(CountryCodes::JM),
                (74, 79) => Some(CountryCodes::JO),
                (74, 80) => Some(CountryCodes::JP),
                (75, 69) => Some(CountryCodes::KE),
                (75, 71) => Some(CountryCodes::KG),
                (75, 72) => Some(CountryCodes::KH),
                (75, 73) => Some(CountryCodes::KI),
                (75, 77) => Some(CountryCodes::KM),
                (75, 78) => Some(CountryCodes::KN),
                (75, 80) => Some(CountryCodes::KP),
                (75, 82) => Some(CountryCodes::KR),
                (75, 87) => Some(CountryCodes::KW),
                (75, 89) => Some(CountryCodes::KY),
                (75, 90) => Some(CountryCodes::KZ),
                (76, 65) => Some(CountryCodes::LA),
                (76, 66) => Some(CountryCodes::LB),
                (76, 67) => Some(CountryCodes::LC),
                (76, 73) => Some(CountryCodes::LI),
                (76, 75) => Some(CountryCodes::LK),
                (76, 82) => Some(CountryCodes::LR),
                (76, 83) => Some(CountryCodes::LS),
                (76, 84) => Some(CountryCodes::LT),
                (76, 85) => Some(CountryCodes::LU),
                (76, 86) => Some(CountryCodes::LV),
                (76, 89) => Some(CountryCodes::LY),
                (77, 65) => Some(CountryCodes::MA),
                (77, 67) => Some(CountryCodes::MC),
                (77, 68) => Some(CountryCodes::MD),
                (77, 71) => Some(CountryCodes::MG),
                (77, 72) => Some(CountryCodes::MH),
                (77, 75) => Some(CountryCodes::MK),
                (77, 76) => Some(CountryCodes::ML),
                (77, 77) => Some(CountryCodes::MM),
                (77, 78) => Some(CountryCodes::MN),
                (77, 79) => Some(CountryCodes::MO),
                (77, 80) => Some(CountryCodes::MP),
                (77, 81) => Some(CountryCodes::MQ),
                (77, 82) => Some(CountryCodes::MR),
                (77, 83) => Some(CountryCodes::MS),
                (77, 84) => Some(CountryCodes::MT),
                (77, 85) => Some(CountryCodes::MU),
                (77, 86) => Some(CountryCodes::MV),
                (77, 87) => Some(CountryCodes::MW),
                (77, 88) => Some(CountryCodes::MX),
                (77, 89) => Some(CountryCodes::MY),
                (77, 90) => Some(CountryCodes::MZ),
                (78, 65) => Some(CountryCodes::NA),
                (78, 67) => Some(CountryCodes::NC),
                (78, 69) => Some(CountryCodes::NE),
                (78, 70) => Some(CountryCodes::NF),
                (78, 71) => Some(CountryCodes::NG),
                (78, 73) => Some(CountryCodes::NI),
                (78, 76) => Some(CountryCodes::NL),
                (78, 79) => Some(CountryCodes::NO),
                (78, 80) => Some(CountryCodes::NP),
                (78, 82) => Some(CountryCodes::NR),
                (78, 85) => Some(CountryCodes::NU),
                (78, 90) => Some(CountryCodes::NZ),
                (79, 77) => Some(CountryCodes::OM),
                (80, 65) => Some(CountryCodes::PA),
                (80, 69) => Some(CountryCodes::PE),
                (80, 70) => Some(CountryCodes::PF),
                (80, 71) => Some(CountryCodes::PG),
                (80, 72) => Some(CountryCodes::PH),
                (80, 75) => Some(CountryCodes::PK),
                (80, 76) => Some(CountryCodes::PL),
                (80, 77) => Some(CountryCodes::PM),
                (80, 78) => Some(CountryCodes::PN),
                (80, 82) => Some(CountryCodes::PR),
                (80, 83) => Some(CountryCodes::PS),
                (80, 84) => Some(CountryCodes::PT),
                (80, 87) => Some(CountryCodes::PW),
                (80, 89) => Some(CountryCodes::PY),
                (81, 65) => Some(CountryCodes::QA),
                (82, 69) => Some(CountryCodes::RE),
                (82, 79) => Some(CountryCodes::RO),
                (82, 85) => Some(CountryCodes::RU),
                (82, 87) => Some(CountryCodes::RW),
                (83, 65) => Some(CountryCodes::SA),
                (83, 66) => Some(CountryCodes::SB),
                (83, 67) => Some(CountryCodes::SC),
                (83, 68) => Some(CountryCodes::SD),
                (83, 69) => Some(CountryCodes::SE),
                (83, 71) => Some(CountryCodes::SG),
                (83, 72) => Some(CountryCodes::SH),
                (83, 73) => Some(CountryCodes::SI),
                (83, 74) => Some(CountryCodes::SJ),
                (83, 75) => Some(CountryCodes::SK),
                (83, 76) => Some(CountryCodes::SL),
                (83, 77) => Some(CountryCodes::SM),
                (83, 78) => Some(CountryCodes::SN),
                (83, 79) => Some(CountryCodes::SO),
                (83, 82) => Some(CountryCodes::SR),
                (83, 84) => Some(CountryCodes::ST),
                (83, 86) => Some(CountryCodes::SV),
                (83, 89) => Some(CountryCodes::SY),
                (83, 90) => Some(CountryCodes::SZ),
                (84, 67) => Some(CountryCodes::TC),
                (84, 68) => Some(CountryCodes::TD),
                (84, 70) => Some(CountryCodes::TF),
                (84, 71) => Some(CountryCodes::TG),
                (84, 72) => Some(CountryCodes::TH),
                (84, 74) => Some(CountryCodes::TJ),
                (84, 75) => Some(CountryCodes::TK),
                (84, 77) => Some(CountryCodes::TM),
                (84, 78) => Some(CountryCodes::TN),
                (84, 79) => Some(CountryCodes::TO),
                (84, 76) => Some(CountryCodes::TL),
                (84, 82) => Some(CountryCodes::TR),
                (84, 84) => Some(CountryCodes::TT),
                (84, 86) => Some(CountryCodes::TV),
                (84, 87) => Some(CountryCodes::TW),
                (84, 90) => Some(CountryCodes::TZ),
                (85, 65) => Some(CountryCodes::UA),
                (85, 71) => Some(CountryCodes::UG),
                (85, 77) => Some(CountryCodes::UM),
                (85, 83) => Some(CountryCodes::US),
                (85, 89) => Some(CountryCodes::UY),
                (85, 90) => Some(CountryCodes::UZ),
                (86, 65) => Some(CountryCodes::VA),
                (86, 67) => Some(CountryCodes::VC),
                (86, 69) => Some(CountryCodes::VE),
                (86, 71) => Some(CountryCodes::VG),
                (86, 73) => Some(CountryCodes::VI),
                (86, 78) => Some(CountryCodes::VN),
                (86, 85) => Some(CountryCodes::VU),
                (87, 70) => Some(CountryCodes::WF),
                (87, 83) => Some(CountryCodes::WS),
                (89, 69) => Some(CountryCodes::YE),
                (89, 84) => Some(CountryCodes::YT),
                (82, 83) => Some(CountryCodes::RS),
                (90, 65) => Some(CountryCodes::ZA),
                (90, 77) => Some(CountryCodes::ZM),
                (77, 69) => Some(CountryCodes::ME),
                (90, 87) => Some(CountryCodes::ZW),
                (88, 88) => Some(CountryCodes::XX),
                (65, 50) => Some(CountryCodes::A2),
                (79, 49) => Some(CountryCodes::O1),
                (65, 88) => Some(CountryCodes::AX),
                (71, 71) => Some(CountryCodes::GG),
                (73, 77) => Some(CountryCodes::IM),
                (74, 69) => Some(CountryCodes::JE),
                (66, 76) => Some(CountryCodes::BL),
                (77, 70) => Some(CountryCodes::MF),
                _ => None,
            }
        }
    }

    pub fn value(self) -> (r: u8)
        ensures
            r == self.spec_value(),
    {
        match self {
            CountryCodes::UN => 0,
            CountryCodes::OC => 1,
            CountryCodes::EU => 2,
            CountryCodes::AD => 3,
            CountryCodes::AE => 4,
            CountryCodes::AF => 5,
            CountryCodes::AG => 6,
            CountryCodes::AI => 7,
            CountryCodes::AL => 8,
            CountryCodes::AM => 9,
            CountryCodes::AN => 10,
            CountryCodes::AO => 11,
            CountryCodes::AQ => 12,
            CountryCodes::AR => 13,
            CountryCodes::AS => 14,
            CountryCodes::AT => 15,
            CountryCodes::AU => 16,
            CountryCodes::AW => 17,
            CountryCodes::AZ => 18,
            CountryCodes::BA => 19,
            CountryCodes::BB => 20,
            CountryCodes::BD => 21,
            CountryCodes::BE => 22,
            CountryCodes::BF => 23,
            CountryCodes::BG => 24,
            CountryCodes::BH => 25,
            CountryCodes::BI => 26,
            CountryCodes::BJ => 27,
            CountryCodes::BM => 28,
            CountryCodes::BN => 29,
            CountryCodes::BO => 30,
            CountryCodes::BR => 31,
            CountryCodes::BS => 32,
            CountryCodes::BT => 33,
            CountryCodes::BV => 34,
            CountryCodes::BW => 35,
            CountryCodes::BY => 36,
            CountryCodes::BZ => 37,
            CountryCodes::CA => 38,
            CountryCodes::CC => 39,
            CountryCodes::CD => 40,
            CountryCodes::CF => 41,
            CountryCodes::CG => 42,
            CountryCodes::CH => 43,
            CountryCodes::CI => 44,
            CountryCodes::CK => 45,
            CountryCodes::CL => 46,
            CountryCodes::CM => 47,
            CountryCodes::CN => 48,
            CountryCodes::CO => 49,
            CountryCodes::CR => 50,
            CountryCodes::CU => 51,
            CountryCodes::CV => 52,
            CountryCodes::CX => 53,
            CountryCodes::CY => 54,
            CountryCodes::CZ => 55,
            CountryCodes::DE => 56,
            CountryCodes::DJ => 57,
            CountryCodes::DK => 58,
            CountryCodes::DM => 59,
            CountryCodes::DO => 60,
            CountryCodes::DZ => 61,
            CountryCodes::EC => 62,
            CountryCodes::EE => 63,
            CountryCodes::EG => 64,
            CountryCodes::EH => 65,
            CountryCodes::ER => 66,
            CountryCodes::ES => 67,
            CountryCodes::ET => 68,
            CountryCodes::FI => 69,
            CountryCodes::FJ => 70,
            CountryCodes::FK => 71,
            CountryCodes::FM => 72,
            CountryCodes::FO => 73,
            CountryCodes::FR => 74,
            CountryCodes::FX => 75,
            CountryCodes::GA => 76,
            CountryCodes::GB => 77,
            CountryCodes::GD => 78,
            CountryCodes::GE => 79,
            CountryCodes::GF => 80,
            CountryCodes::GH => 81,
            CountryCodes::GI => 82,
            CountryCodes::GL => 83,
            CountryCodes::GM => 84,
            CountryCodes::GN => 85,
            CountryCodes::GP => 86,
            CountryCodes::GQ => 87,
            CountryCodes::GR => 88,
            CountryCodes::GS => 89,
            CountryCodes::GT => 90,
            CountryCodes::GU => 91,
            CountryCodes::GW => 92,
            CountryCodes::GY => 93,
            CountryCodes::HK => 94,
            CountryCodes::HM => 95,
            CountryCodes::HN => 96,
            CountryCodes::HR => 97,
            CountryCodes::HT => 98,
            CountryCodes::HU => 99,
            CountryCodes::ID => 100,
            CountryCodes::IE => 101,
            CountryCodes::IL => 102,
            CountryCodes::IN => 103,
            CountryCodes::IO => 104,
            CountryCodes::IQ => 105,
            CountryCodes::IR => 106,
            CountryCodes::IS => 107,
            CountryCodes::IT => 108,
            CountryCodes::JM => 109,
            CountryCodes::JO => 110,
            CountryCodes::JP => 111,
            CountryCodes::KE => 112,
            CountryCodes::KG => 113,
            CountryCodes::KH => 114,
            CountryCodes::KI => 115,
            CountryCodes::KM => 116,
            CountryCodes::KN => 117,
            CountryCodes::KP => 118,
            CountryCodes::KR => 119,
            CountryCodes::KW => 120,
            CountryCodes::KY => 121,
            CountryCodes::KZ => 122,
            CountryCodes::LA => 123,
            CountryCodes::LB => 124,
            CountryCodes::LC => 125,
            CountryCodes::LI => 126,
            CountryCodes::LK => 127,
            CountryCodes::LR => 128,
            CountryCodes::LS => 129,
            CountryCodes::LT => 130,
            CountryCodes::LU => 131,
            CountryCodes::LV => 132,
            CountryCodes::LY => 133,
            CountryCodes::MA => 134,
            CountryCodes::MC => 135,
            CountryCodes::MD => 136,
            CountryCodes::MG => 137,
            CountryCodes::MH => 138,
            CountryCodes::MK => 139,
            CountryCodes::ML => 140,
            CountryCodes::MM => 141,
            CountryCodes::MN => 142,
            CountryCodes::MO => 143,
            CountryCodes::MP => 144,
            CountryCodes::MQ => 145,
            CountryCodes::MR => 146,
            CountryCodes::MS => 147,
            CountryCodes::MT => 148,
            CountryCodes::MU => 149,
            CountryCodes::MV => 150,
            CountryCodes::MW => 151,
            CountryCodes::MX => 152,
            CountryCodes::MY => 153,
            CountryCodes::MZ => 154,
            CountryCodes::NA => 155,
            CountryCodes::NC => 156,
            CountryCodes::NE => 157,
            CountryCodes::NF => 158,
            CountryCodes::NG => 159,
            CountryCodes::NI => 160,
            CountryCodes::NL => 161,
            CountryCodes::NO => 162,
            CountryCodes::NP => 163,
            CountryCodes::NR => 164,
            CountryCodes::NU => 165,
            CountryCodes::NZ => 166,
            CountryCodes::OM => 167,
            CountryCodes::PA => 168,
            CountryCodes::PE => 169,
            CountryCodes::PF => 170,
            CountryCodes::PG => 171,
            CountryCodes::PH => 172,
            CountryCodes::PK => 173,
            CountryCodes::PL => 174,
            CountryCodes::PM => 175,
            CountryCodes::PN => 176,
            CountryCodes::PR => 177,
            CountryCodes::PS => 178,
            CountryCodes::PT => 179,
            CountryCodes::PW => 180,
            CountryCodes::PY => 181,
            CountryCodes::QA => 182,
            CountryCodes::RE => 183,
            CountryCodes::RO => 184,
            CountryCodes::RU => 185,
            CountryCodes::RW => 186,
            CountryCodes::SA => 187,
            CountryCodes::SB => 188,
            CountryCodes::SC => 189,
            CountryCodes::SD => 190,
            CountryCodes::SE => 191,
            CountryCodes::SG => 192,
            CountryCodes::SH => 193,
            CountryCodes::SI => 194,
            CountryCodes::SJ => 195,
            CountryCodes::SK => 196,
            CountryCodes::SL => 197,
            CountryCodes::SM => 198,
            CountryCodes::SN => 199,
            CountryCodes::SO => 200,
            CountryCodes::SR => 201,
            CountryCodes::ST => 202,
            CountryCodes::SV => 203,
            CountryCodes::SY => 204,
            CountryCodes::SZ => 205,
            CountryCodes::TC => 206,
            CountryCodes::TD => 207,
            CountryCodes::TF => 208,
            CountryCodes::TG => 209,
            CountryCodes::TH => 210,
            CountryCodes::TJ => 211,
            CountryCodes::TK => 212,
            CountryCodes::TM => 213,
            CountryCodes::TN => 214,
            CountryCodes::TO => 215,
            CountryCodes::TL => 216,
            CountryCodes::TR => 217,
            CountryCodes::TT => 218,
            CountryCodes::TV => 219,
            CountryCodes::TW => 220,
            CountryCodes::TZ => 221,
            CountryCodes::UA => 222,
            CountryCodes::UG => 223,
            CountryCodes::UM => 224,
            CountryCodes::US => 225,
            CountryCodes::UY => 226,
            CountryCodes::UZ => 227,
            CountryCodes::VA => 228,
            CountryCodes::VC => 229,
            CountryCodes::VE => 230,
            CountryCodes::VG => 231,
            CountryCodes::VI => 232,
            CountryCodes::VN => 233,
            CountryCodes::VU => 234,
            CountryCodes::WF => 235,
            CountryCodes::WS => 236,
            CountryCodes::YE => 237,
            CountryCodes::YT => 238,
            CountryCodes::RS => 239,
            CountryCodes::ZA => 240,
            CountryCodes::ZM => 241,
            CountryCodes::ME => 242,
            CountryCodes::ZW => 243,
            CountryCodes::XX => 244,
            CountryCodes::A2 => 245,
            CountryCodes::O1 => 246,
            CountryCodes::AX => 247,
            CountryCodes::GG => 248,
            CountryCodes::IM => 249,
            CountryCodes::JE => 250,
            CountryCodes::BL => 251,
            CountryCodes::MF => 252,
        }
    }

    /// The country whose code is spelt by `b`, upper case.
    pub fn from_code(b: &[u8]) -> (r: Option<CountryCodes>)
        ensures
            r == Self::spec_from_code(b@),
    {
        if b.len() != 2 {
            return None;
        }
        match (b[0], b[1]) {
            (85, 78) => Some(CountryCodes::UN),
            (79, 67) => Some(CountryCodes::OC),
            (69, 85) => Some(CountryCodes::EU),
            (65, 68) => Some(CountryCodes::AD),
            (65, 69) => Some(CountryCodes::AE),
            (65, 70) => Some(CountryCodes::AF),
            (65, 71) => Some(CountryCodes::AG),
            (65, 73) => Some(CountryCodes::AI),
            (65, 76) => Some(CountryCodes::AL),
            (65, 77) => Some(CountryCodes::AM),
            (65, 78) => Some(CountryCodes::AN),
            (65, 79) => Some(CountryCodes::AO),
            (65, 81) => Some(CountryCodes::AQ),
            (65, 82) => Some(CountryCodes::AR),
            (65, 83) => Some(CountryCodes::AS),
            (65, 84) => Some(CountryCodes::AT),
            (65, 85) => Some(CountryCodes::AU),
            (65, 87) => Some(CountryCodes::AW),
            (65, 90) => Some(CountryCodes::AZ),
            (66, 65) => Some(CountryCodes::BA),
            (66, 66) => Some(CountryCodes::BB),
            (66, 68) => Some(CountryCodes::BD),
            (66, 69) => Some(CountryCodes::BE),
            (66, 70) => Some(CountryCodes::BF),
            (66, 71) => Some(CountryCodes::BG),
            (66, 72) => Some(CountryCodes::BH),
            (66, 73) => Some(CountryCodes::BI),
            (66, 74) => Some(CountryCodes::BJ),
            (66, 77) => Some(CountryCodes::BM),
            (66, 78) => Some(CountryCodes::BN),
            (66, 79) => Some(CountryCodes::BO),
            (66, 82) => Some(CountryCodes::BR),
            (66, 83) => Some(CountryCodes::BS),
            (66, 84) => Some(CountryCodes::BT),
            (66, 86) => Some(CountryCodes::BV),
            (66, 87) => Some(CountryCodes::BW),
            (66, 89) => Some(CountryCodes::BY),
            (66, 90) => Some(CountryCodes::BZ),
            (67, 65) => Some(CountryCodes::CA),
            (67, 67) => Some(CountryCodes::CC),
            (67, 68) => Some(CountryCodes::CD),
            (67, 70) => Some(CountryCodes::CF),
            (67, 71) => Some(CountryCodes::CG),
            (67, 72) => Some(CountryCodes::CH),
            (67, 73) => Some(CountryCodes::CI),
            (67, 75) => Some(CountryCodes::CK),
            (67, 76) => Some(CountryCodes::CL),
            (67, 77) => Some(CountryCodes::CM),
            (67, 78) => Some(CountryCodes::CN),
            (67, 79) => Some(CountryCodes::CO),
            (67, 82) => Some(CountryCodes::CR),
            (67, 85) => Some(CountryCodes::CU),
            (67, 86) => Some(CountryCodes::CV),
            (67, 88) => Some(CountryCodes::CX),
            (67, 89) => Some(CountryCodes::CY),
            (67, 90) => Some(CountryCodes::CZ),
            (68, 69) => Some(CountryCodes::DE),
            (68, 74) => Some(CountryCodes::DJ),
            (68, 75) => Some(CountryCodes::DK),
            (68, 77) => Some(CountryCodes::DM),
            (68, 79) => Some(CountryCodes::DO),
            (68, 90) => Some(CountryCodes::DZ),
            (69, 67) => Some(CountryCodes::EC),
            (69, 69) => Some(CountryCodes::EE),
            (69, 71) => Some(CountryCodes::EG),
            (69, 72) => Some(CountryCodes::EH),
            (69, 82) => Some(CountryCodes::ER),
            (69, 83) => Some(CountryCodes::ES),
            (69, 84) => Some(CountryCodes::ET),
            (70, 73) => Some(CountryCodes::FI),
            (70, 74) => Some(CountryCodes::FJ),
            (70, 75) => Some(CountryCodes::FK),
            (70, 77) => Some(CountryCodes::FM),
            (70, 79) => Some(CountryCodes::FO),
            (70, 82) => Some(CountryCodes::FR),
            (70, 88) => Some(CountryCodes::FX),
            (71, 65) => Some(CountryCodes::GA),
            (71, 66) => Some(CountryCodes::GB),
            (71, 68) => Some(CountryCodes::GD),
            (71, 69) => Some(CountryCodes::GE),
            (71, 70) => Some(CountryCodes::GF),
            (71, 72) => Some(CountryCodes::GH),
            (71, 73) => Some(CountryCodes::GI),
            (71, 76) => Some(CountryCodes::GL),
            (71, 77) => Some(CountryCodes::GM),
            (71, 78) => Some(CountryCodes::GN),
            (71, 80) => Some(CountryCodes::GP),
            (71, 81) => Some(CountryCodes::GQ),
            (71, 82) => Some(CountryCodes::GR),
            (71, 83) => Some(CountryCodes::GS),
            (71, 84) => Some(CountryCodes::GT),
            (71, 85) => Some(CountryCodes::GU),
            (71, 87) => Some(CountryCodes::GW),
            (71, 89) => Some(CountryCodes::GY),
            (72, 75) => Some(CountryCodes::HK),
            (72, 77) => Some(CountryCodes::HM),
            (72, 78) => Some(CountryCodes::HN),
            (72, 82) => Some(CountryCodes::HR),
            (72, 84) => Some(CountryCodes::HT),
            (72, 85) => Some(CountryCodes::HU),
            (73, 68) => Some(CountryCodes::ID),
            (73, 69) => Some(CountryCodes::IE),
            (73, 76) => Some(CountryCodes::IL),
            (73, 78) => Some(CountryCodes::IN),
            (73, 79) => Some(CountryCodes::IO),
            (73, 81) => Some(CountryCodes::IQ),
            (73, 82) => Some(CountryCodes::IR),
            (73, 83) => Some(CountryCodes::IS),
            (73, 84) => Some(CountryCodes::IT),
            (74, 77) => Some(CountryCodes::JM),
            (74, 79) => Some(CountryCodes::JO),
            (74, 80) => Some(CountryCodes::JP),
            (75, 69) => Some(CountryCodes::KE),
            (75, 71) => Some(CountryCodes::KG),
            (75, 72) => Some(CountryCodes::KH),
            (75, 73) => Some(CountryCodes::KI),
            (75, 77) => Some(CountryCodes::KM),
            (75, 78) => Some(CountryCodes::KN),
            (75, 80) => Some(CountryCodes::KP),
            (75, 82) => Some(CountryCodes::KR),
            (75, 87) => Some(CountryCodes::KW),
            (75, 89) => Some(CountryCodes::KY),
            (75, 90) => Some(CountryCodes::KZ),
            (76, 65) => Some(CountryCodes::LA),
            (76, 66) => Some(CountryCodes::LB),
            (76, 67) => Some(CountryCodes::LC),
            (76, 73) => Some(CountryCodes::LI),
            (76, 75) => Some(CountryCodes::LK),
            (76, 82) => Some(CountryCodes::LR),
            (76, 83) => Some(CountryCodes::LS),
            (76, 84) => Some(CountryCodes::LT),
            (76, 85) => Some(CountryCodes::LU),
            (76, 86) => Some(CountryCodes::LV),
            (76, 89) => Some(CountryCodes::LY),
            (77, 65) => Some(CountryCodes::MA),
            (77, 67) => Some(CountryCodes::MC),
            (77, 68) => Some(CountryCodes::MD),
            (77, 71) => Some(CountryCodes::MG),
            (77, 72) => Some(CountryCodes::MH),
            (77, 75) => Some(CountryCodes::MK),
            (77, 76) => Some(CountryCodes::ML),
            (77, 77) => Some(CountryCodes::MM),
            (77, 78) => Some(CountryCodes::MN),
            (77, 79) => Some(CountryCodes::MO),
            (77, 80) => Some(CountryCodes::MP),
            (77, 81) => Some(CountryCodes::MQ),
            (77, 82) => Some(CountryCodes::MR),
            (77, 83) => Some(CountryCodes::MS),
            (77, 84) => Some(CountryCodes::MT),
            (77, 85) => Some(CountryCodes::MU),
            (77, 86) => Some(CountryCodes::MV),
            (77, 87) => Some(CountryCodes::MW),
            (77, 88) => Some(CountryCodes::MX),
            (77, 89) => Some(CountryCodes::MY),
            (77, 90) => Some(CountryCodes::MZ),
            (78, 65) => Some(CountryCodes::NA),
            (78, 67) => Some(CountryCodes::NC),
            (78, 69) => Some(CountryCodes::NE),
            (78, 70) => Some(CountryCodes::NF),
            (78, 71) => Some(CountryCodes::NG),
            (78, 73) => Some(CountryCodes::NI),
            (78, 76) => Some(CountryCodes::NL),
            (78, 79) => Some(CountryCodes::NO),
            (78, 80) => Some(CountryCodes::NP),
            (78, 82) => Some(CountryCodes::NR),
            (78, 85) => Some(CountryCodes::NU),
            (78, 90) => Some(CountryCodes::NZ),
            (79, 77) => Some(CountryCodes::OM),
            (80, 65) => Some(CountryCodes::PA),
            (80, 69) => Some(CountryCodes::PE),
            (80, 70) => Some(CountryCodes::PF),
            (80, 71) => Some(CountryCodes::PG),
            (80, 72) => Some(CountryCodes::PH),
            (80, 75) => Some(CountryCodes::PK),
            (80, 76) => Some(CountryCodes::PL),
            (80, 77) => Some(CountryCodes::PM),
            (80, 78) => Some(CountryCodes::PN),
            (80, 82) => Some(CountryCodes::PR),
            (80, 83) => Some(CountryCodes::PS),
            (80, 84) => Some(CountryCodes::PT),
            (80, 87) => Some(CountryCodes::PW),
            (80, 89) => Some(CountryCodes::PY),
            (81, 65) => Some(CountryCodes::QA),
            (82, 69) => Some(CountryCodes::RE),
            (82, 79) => Some(CountryCodes::RO),
            (82, 85) => Some(CountryCodes::RU),
            (82, 87) => Some(CountryCodes::RW),
            (83, 65) => Some(CountryCodes::SA),
            (83, 66) => Some(CountryCodes::SB),
            (83, 67) => Some(CountryCodes::SC),
            (83, 68) => Some(CountryCodes::SD),
            (83, 69) => Some(CountryCodes::SE),
            (83, 71) => Some(CountryCodes::SG),
            (83, 72) => Some(CountryCodes::SH),
            (83, 73) => Some(CountryCodes::SI),
            (83, 74) => Some(CountryCodes::SJ),
            (83, 75) => Some(CountryCodes::SK),
            (83, 76) => Some(CountryCodes::SL),
            (83, 77) => Some(CountryCodes::SM),
            (83, 78) => Some(CountryCodes::SN),
            (83, 79) => Some(CountryCodes::SO),
            (83, 82) => Some(CountryCodes::SR),
            (83, 84) => Some(CountryCodes::ST),
            (83, 86) => Some(CountryCodes::SV),
            (83, 89) => Some(CountryCodes::SY),
            (83, 90) => Some(CountryCodes::SZ),
            (84, 67) => Some(CountryCodes::TC),
            (84, 68) => Some(CountryCodes::TD),
            (84, 70) => Some(CountryCodes::TF),
            (84, 71) => Some(CountryCodes::TG),
            (84, 72) => Some(CountryCodes::TH),
            (84, 74) => Some(CountryCodes::TJ),
            (84, 75) => Some(CountryCodes::TK),
            (84, 77) => Some(CountryCodes::TM),
            (84, 78) => Some(CountryCodes::TN),
            (84, 79) => Some(CountryCodes::TO),
            (84, 76) => Some(CountryCodes::TL),
            (84, 82) => Some(CountryCodes::TR),
            (84, 84) => Some(CountryCodes::TT),
            (84, 86) => Some(CountryCodes::TV),
            (84, 87) => Some(CountryCodes::TW),
            (84, 90) => Some(CountryCodes::TZ),
            (85, 65) => Some(CountryCodes::UA),
            (85, 71) => Some(CountryCodes::UG),
            (85, 77) => Some(CountryCodes::UM),
            (85, 83) => Some(CountryCodes::US),
            (85, 89) => Some(CountryCodes::UY),
            (85, 90) => Some(CountryCodes::UZ),
            (86, 65) => Some(CountryCodes::VA),
            (86, 67) => Some(CountryCodes::VC),
            (86, 69) => Some(CountryCodes::VE),
            (86, 71) => Some(CountryCodes::VG),
            (86, 73) => Some(CountryCodes::VI),
            (86, 78) => Some(CountryCodes::VN),
            (86, 85) => Some(CountryCodes::VU),
            (87, 70) => Some(CountryCodes::WF),
            (87, 83) => Some(CountryCodes::WS),
            (89, 69) => Some(CountryCodes::YE),
            (89, 84) => Some(CountryCodes::YT),
            (82, 83) => Some(CountryCodes::RS),
            (90, 65) => Some(CountryCodes::ZA),
            (90, 77) => Some(CountryCodes::ZM),
            (77, 69) => Some(CountryCodes::ME),
            (90, 87) => Some(CountryCodes::ZW),
            (88, 88) => Some(CountryCodes::XX),
            (65, 50) => Some(CountryCodes::A2),
            (79, 49) => Some(CountryCodes::O1),
            (65, 88) => Some(CountryCodes::AX),
            (71, 71) => Some(CountryCodes::GG),
            (73, 77) => Some(CountryCodes::IM),
            (74, 69) => Some(CountryCodes::JE),
            (66, 76) => Some(CountryCodes::BL),
            (77, 70) => Some(CountryCodes::MF),
            _ => None,
        }
    }
}

} // verus!
