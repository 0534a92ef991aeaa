//! Client status values: activity, game mode, mods and account privileges.
use vstd::prelude::*;

verus! {

/// What a client is doing.
#[derive(Clone, Copy, Debug, PartialEq, Eq, Structural)]
pub enum Action {
    Idle,
    Afk,
    Playing,
    Editing,
    Modding,
    Multiplayer,
    Watching,
    Unknown,
    Testing,
    Submitting,
    Paused,
    Lobby,
    Multiplaying,
    OsuDirect,
}

impl Action {
    pub open spec fn spec_value(self) -> u8 {
        match self {
            Action::Idle => 0,
            Action::Afk => 1,
            Action::Playing => 2,
            Action::Editing => 3,
            Action::Modding => 4,
            Action::Multiplayer => 5,
            Action::Watching => 6,
            Action::Unknown => 7,
            Action::Testing => 8,
            Action::Submitting => 9,
            Action::Paused => 10,
            Action::Lobby => 11,
            Action::Multiplaying => 12,
            Action::OsuDirect => 13,
        }
    }

    /// The byte sent for the action.
    pub fn value(self) -> (r: u8)
        ensures
            r == self.spec_value(),
    {
        match self {
            Action::Idle => 0,
            Action::Afk => 1,
            Action::Playing => 2,
            Action::Editing => 3,
            Action::Modding => 4,
            Action::Multiplayer => 5,
            Action::Watching => 6,
            Action::Unknown => 7,
            Action::Testing => 8,
            Action::Submitting => 9,
            Action::Paused => 10,
            Action::Lobby => 11,
            Action::Multiplaying => 12,
            Action::OsuDirect => 13,
        }
    }

    pub open spec fn spec_from_u8(v: u8) -> Option<Action> {
        match v {
            0 => Some(Action::Idle),
            1 => Some(Action::Afk),
            2 => Some(Action::Playing),
            3 => Some(Action::Editing),
            4 => Some(Action::Modding),
            5 => Some(Action::Multiplayer),
            6 => Some(Action::Watching),
            7 => Some(Action::Unknown),
            8 => Some(Action::Testing),
            9 => Some(Action::Submitting),
            10 => Some(Action::Paused),
            11 => Some(Action::Lobby),
            12 => Some(Action::Multiplaying),
            13 => Some(Action::OsuDirect),
            _ => None,
        }
    }

    /// The action a byte stands for; `None` past the last one.
    pub fn from_u8(v: u8) -> (r: Option<Action>)
        ensures
            r == Self::spec_from_u8(v),
            v <= 13 <==> r is Some,
            r matches Some(a) ==> a.spec_value() == v,
    {
        match v {
            0 => Some(Action::Idle),
            1 => Some(Action::Afk),
            2 => Some(Action::Playing),
            3 => Some(Action::Editing),
            4 => Some(Action::Modding),
            5 => Some(Action::Multiplayer),
            6 => Some(Action::Watching),
            7 => Some(Action::Unknown),
            8 => Some(Action::Testing),
            9 => Some(Action::Submitting),
            10 => Some(Action::Paused),
            11 => Some(Action::Lobby),
            12 => Some(Action::Multiplaying),
            13 => Some(Action::OsuDirect),
            _ => None,
        }
    }
}

/// Number of game modes, and of per-mode statistics records.
pub const MODE_COUNT: usize = 8;

/// Game mode, with the relax and autopilot variants.
#[derive(Clone, Copy, Debug, PartialEq, Eq, Structural)]
pub enum Mode {
    Std,
    Taiko,
    Catch,
    Mania,
    StdRx,
    TaikoRx,
    CatchRx,
    StdAp,
}

impl Mode {
    pub open spec fn spec_value(self) -> u8 {
        match self {
            Mode::Std => 0,
            Mode::Taiko => 1,
            Mode::Catch => 2,
            Mode::Mania => 3,
            Mode::StdRx => 4,
            Mode::TaikoRx => 5,
            Mode::CatchRx => 6,
            Mode::StdAp => 7,
        }
    }

    pub open spec fn spec_from_value(v: int) -> Option<Mode> {
        if v == 0 {
            Some(Mode::Std)
        } else if v == 1 {
            Some(Mode::Taiko)
        } else if v == 2 {
            Some(Mode::Catch)
        } else if v == 3 {
            Some(Mode::Mania)
        } else if v == 4 {
            Some(Mode::StdRx)
        } else if v == 5 {
            Some(Mode::TaikoRx)
        } else if v == 6 {
            Some(Mode::CatchRx)
        } else if v == 7 {
            Some(Mode::StdAp)
        } else {
            None
        }
    }

    pub open spec fn is_relax(self) -> bool {
        self == Mode::StdRx || self == Mode::TaikoRx || self == Mode::CatchRx
    }

    pub open spec fn is_vanilla(self) -> bool {
        self.spec_value() <= 3
    }

    /// The vanilla mode a variant is played in.
    pub open spec fn spec_as_vn(self) -> i32 {
        match self {
            Mode::Std | Mode::StdRx | Mode::StdAp => 0,
            Mode::Taiko | Mode::TaikoRx => 1,
            Mode::Catch | Mode::CatchRx => 2,
            Mode::Mania => 3,
        }
    }

    /// The byte sent for the mode, also its index among the statistics records.
    pub fn value(self) -> (r: u8)
        ensures
            r == self.spec_value(),
            r < MODE_COUNT,
    {
        match self {
            Mode::Std => 0,
            Mode::Taiko => 1,
            Mode::Catch => 2,
            Mode::Mania => 3,
            Mode::StdRx => 4,
            Mode::TaikoRx => 5,
            Mode::CatchRx => 6,
            Mode::StdAp => 7,
        }
    }

    /// The mode a value stands for; `None` outside `0..=7`.
    pub fn from_i32(v: i32) -> (r: Option<Mode>)
        ensures
            r == Self::spec_from_value(v as int),
    {
        match v {
            0 => Some(Mode::Std),
            1 => Some(Mode::Taiko),
            2 => Some(Mode::Catch),
            3 => Some(Mode::Mania),
            4 => Some(Mode::StdRx),
            5 => Some(Mode::TaikoRx),
            6 => Some(Mode::CatchRx),
            7 => Some(Mode::StdAp),
            _ => None,
        }
    }

    /// Name of the table holding the mode's statistics.
    pub fn stats_table(&self) -> (r: &'static str)
        ensures
            r@ == (if self.is_relax() {
                "rx_stats"@
            } else if self.is_vanilla() {
                "users_stats"@
            } else {
                "ap_stats"@
            }),
    {
        match self {
            Mode::StdRx | Mode::TaikoRx | Mode::CatchRx => "rx_stats",
            Mode::Std | Mode::Taiko | Mode::Catch | Mode::Mania => "users_stats",
            Mode::StdAp => "ap_stats",
        }
    }

    pub fn as_vn(self) -> (r: i32)
        ensures
            r == self.spec_as_vn(),
    {
        match self {
            Mode::Std | Mode::StdRx | Mode::StdAp => 0,
            Mode::Taiko | Mode::TaikoRx => 1,
            Mode::Catch | Mode::CatchRx => 2,
            Mode::Mania => 3,
        }
    }

    /// Column suffix of the mode's statistics.
    pub fn sql_suffix(self) -> (r: &'static str)
        ensures
            r@ == (match self.spec_as_vn() {
                0 => "std"@,
                1 => "taiko"@,
                2 => "ctb"@,
                _ => "mania"@,
            }),
    {
        match self {
            Mode::Std | Mode::StdRx | Mode::StdAp => "std",
            Mode::Taiko | Mode::TaikoRx => "taiko",
            Mode::Catch | Mode::CatchRx => "ctb",
            Mode::Mania => "mania",
        }
    }

    /// The effective mode of a vanilla mode played with `mods`.
    pub open spec fn spec_from_mods(mode: i32, mods: i32) -> Option<Mode> {
        if !(0 <= mode <= 3) {
            None
        } else if mods & MOD_RELAX != 0 {
            if mode == 3 {
                Some(Mode::Mania)
            } else {
                Self::spec_from_value(mode + 4)
            }
        } else if mods & MOD_AUTOPILOT != 0 && mode == 0 {
            Some(Mode::StdAp)
        } else {
            Self::spec_from_value(mode as int)
        }
    }

    /// Relax turns std, taiko and catch into their relax variants and leaves
    /// mania alone; autopilot turns std into its autopilot variant. `None`
    /// when `mode` is no vanilla mode.
    pub fn from_mods(mode: i32, mods: i32) -> (r: Option<Mode>)
        ensures
            r == Self::spec_from_mods(mode, mods),
    {
        if mode < 0 || mode > 3 {
            return None;
        }
        if mods & MOD_RELAX != 0 {
            if mode == 3 {
                return Some(Mode::Mania);
            }
            return Self::from_i32(mode + 4);
        } else if mods & MOD_AUTOPILOT != 0 && mode == 0 {
            return Some(Mode::StdAp);
        }
        Self::from_i32(mode)
    }
}

pub const MOD_NOMOD: i32 = 0;

pub const MOD_RELAX: i32 = 1 << 7;

pub const MOD_AUTOPILOT: i32 = 1 << 13;

/// A set of gameplay mods, as the client's bit set.
#[derive(Clone, Copy, Debug, PartialEq, Eq, Structural)]
pub struct Mods {
    pub bits: i32,
}

impl Mods {
    pub fn from_value(value: i32) -> (r: Self)
        ensures
            r.bits == value,
    {
        Self { bits: value }
    }

    pub fn value(self) -> (r: i32)
        ensures
            r == self.bits,
    {
        self.bits
    }
}

/// The privilege bit that makes an account publicly visible.
pub const USER_PUBLIC: i64 = 1;

/// The privilege bit of supporters.
pub const USER_DONOR: i64 = 4;

/// Client-side privilege bits.
pub const CLIENT_PLAYER: u8 = 1;

pub const CLIENT_SUPPORTER: u8 = 4;

/// Account privileges, as stored.
#[derive(Clone, Copy, Debug, PartialEq, Eq, Structural)]
pub struct Privileges {
    pub bits: i64,
}

impl Privileges {
    pub open spec fn spec_public(self) -> bool {
        self.bits & USER_PUBLIC != 0
    }

    pub fn from_value(value: i64) -> (r: Self)
        ensures
            r.bits == value,
    {
        Self { bits: value }
    }

    pub fn value(self) -> (r: i64)
        ensures
            r == self.bits,
    {
        self.bits
    }

    /// The privilege byte shown to clients: player for a public account,
    /// supporter for a donor.
    pub open spec fn spec_client_bits(self) -> u8 {
        (if self.spec_public() {
            CLIENT_PLAYER
        } else {
            0
        }) | (if self.bits & USER_DONOR != 0 {
            CLIENT_SUPPORTER
        } else {
            0
        })
    }

    pub fn client_bits(self) -> (r: u8)
        ensures
            r == self.spec_client_bits(),
    {
        let player: u8 = if self.is_public() {
            CLIENT_PLAYER
        } else {
            0
        };
        let supporter: u8 = if self.bits & USER_DONOR != 0 {
            CLIENT_SUPPORTER
        } else {
            0
        };
        player | supporter
    }

    /// Whether the public bit is set.
    pub fn is_public(self) -> (r: bool)
        ensures
            r == self.spec_public(),
    {
        self.bits & USER_PUBLIC != 0
    }
}

} // verus!
