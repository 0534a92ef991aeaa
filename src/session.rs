//! One connected client: identity, status, statistics, relationships and
//! its outbound packet queue.
use vstd::prelude::*;

use crate::codec::append_bytes;
use crate::status::{Action, Mode, Mods, Privileges, MODE_COUNT, MOD_NOMOD};

verus! {

/// `s` without its first occurrence of `x`.
pub open spec fn remove_first(s: Seq<i32>, x: i32) -> Seq<i32>
    decreases s.len(),
{
    if s.len() == 0 {
        s
    } else if s[0] == x {
        s.drop_first()
    } else {
        seq![s[0]] + remove_first(s.drop_first(), x)
    }
}

pub proof fn lemma_remove_first_at(s: Seq<i32>, x: i32, i: int)
    requires
        0 <= i < s.len(),
        s[i] == x,
        forall|j: int| 0 <= j < i ==> s[j] != x,
    ensures
        remove_first(s, x) == s.remove(i),
    decreases s.len(),
{
    if i > 0 {
        lemma_remove_first_at(s.drop_first(), x, i - 1);
        assert(seq![s[0]] + s.drop_first().remove(i - 1) =~= s.remove(i));
    } else {
        assert(s.drop_first() =~= s.remove(0));
    }
}

pub proof fn lemma_remove_first_absent(s: Seq<i32>, x: i32)
    requires
        !s.contains(x),
    ensures
        remove_first(s, x) == s,
    decreases s.len(),
{
    if s.len() > 0 {
        assert(!s.drop_first().contains(x)) by {
            if s.drop_first().contains(x) {
                let j = choose|j: int| 0 <= j < s.drop_first().len() && s.drop_first()[j] == x;
                assert(s[j + 1] == x);
            }
        }
        assert(s[0] != x) by {
            if s[0] == x {
                assert(s.contains(x));
            }
        }
        lemma_remove_first_absent(s.drop_first(), x);
        assert(seq![s[0]] + s.drop_first() =~= s);
    }
}

/// Where `x` occurs at most once, removing its first occurrence leaves none.
pub proof fn lemma_remove_first_clears(s: Seq<i32>, x: i32)
    requires
        s.no_duplicates(),
    ensures
        !remove_first(s, x).contains(x),
    decreases s.len(),
{
    if s.len() > 0 {
        let t = s.drop_first();
        assert(t.no_duplicates()) by {
            assert forall|i: int, j: int| 0 <= i < t.len() && 0 <= j < t.len() && i != j implies t[i]
                != t[j] by {
                assert(t[i] == s[i + 1] && t[j] == s[j + 1]);
            }
        }
        if s[0] == x {
            if t.contains(x) {
                let j = choose|j: int| 0 <= j < t.len() && t[j] == x;
                assert(s[j + 1] == s[0]);
            }
        } else {
            lemma_remove_first_clears(t, x);
            let r = remove_first(s, x);
            if r.contains(x) {
                let j = choose|j: int| 0 <= j < r.len() && r[j] == x;
                assert(r == seq![s[0]] + remove_first(t, x));
                if j > 0 {
                    assert(remove_first(t, x)[j - 1] == x);
                }
            }
        }
    }
}

/// `s` without any occurrence of `x`, in order.
pub open spec fn without(s: Seq<i32>, x: i32) -> Seq<i32>
    decreases s.len(),
{
    if s.len() == 0 {
        s
    } else if s.last() == x {
        without(s.drop_last(), x)
    } else {
        without(s.drop_last(), x).push(s.last())
    }
}

pub proof fn lemma_without_excludes(s: Seq<i32>, x: i32)
    ensures
        !without(s, x).contains(x),
    decreases s.len(),
{
    if s.len() > 0 {
        lemma_without_excludes(s.drop_last(), x);
        let w = without(s, x);
        if w.contains(x) {
            let j = choose|j: int| 0 <= j < w.len() && w[j] == x;
            let t = without(s.drop_last(), x);
            if s.last() != x {
                assert(w == t.push(s.last()));
                if j < t.len() {
                    assert(t[j] == x);
                }
            }
        }
    }
}

/// Removes every `x` from `v`.
pub fn remove_all(v: &mut Vec<i32>, x: i32)
    ensures
        final(v)@ == without(old(v)@, x),
        !final(v)@.contains(x),
{
    let mut kept: Vec<i32> = Vec::new();
    let mut i: usize = 0;
    while i < v.len()
        invariant
            i <= v@.len(),
            kept@ == without(v@.subrange(0, i as int), x),
        decreases v@.len() - i,
    {
        proof {
            assert(v@.subrange(0, i + 1).drop_last() =~= v@.subrange(0, i as int));
        }
        if v[i] != x {
            kept.push(v[i]);
        }
        i = i + 1;
    }
    assert(v@.subrange(0, i as int) =~= v@);
    proof {
        lemma_without_excludes(v@, x);
    }
    *v = kept;
}

/// Position of the first `x` in `v`, if any.
pub fn position_of(v: &Vec<i32>, x: i32) -> (r: Option<usize>)
    ensures
        r is None <==> !v@.contains(x),
        r matches Some(i) ==> i < v@.len() && v@[i as int] == x && forall|j: int|
            0 <= j < i ==> v@[j] != x,
{
    let mut i: usize = 0;
    while i < v.len()
        invariant
            i <= v@.len(),
            forall|j: int| 0 <= j < i ==> v@[j] != x,
        decreases v@.len() - i,
    {
        if v[i] == x {
            return Some(i);
        }
        i = i + 1;
    }
    None
}

/// Removes the first `x` from `v`; whether there was one.
pub fn remove_value(v: &mut Vec<i32>, x: i32) -> (r: bool)
    ensures
        r == old(v)@.contains(x),
        final(v)@ == remove_first(old(v)@, x),
{
    match position_of(v, x) {
        Some(i) => {
            proof {
                lemma_remove_first_at(v@, x, i as int);
            }
            v.remove(i);
            true
        },
        None => {
            proof {
                lemma_remove_first_absent(v@, x);
            }
            false
        },
    }
}

/// Whether `v` holds `x`.
pub fn contains_value(v: &Vec<i32>, x: i32) -> (r: bool)
    ensures
        r == v@.contains(x),
{
    position_of(v, x).is_some()
}

/// Performance statistics of one mode. `accuracy` holds the bits of the
/// 32-bit float sent on the wire.
#[derive(Clone, Copy, Debug, PartialEq, Eq, Structural)]
pub struct Stats {
    pub total_score: i32,
    pub ranked_score: i32,
    pub accuracy: u32,
    pub playcount: i32,
    pub pp: i32,
}

impl Stats {
    pub open spec fn spec_zero() -> Stats {
        Stats { total_score: 0, ranked_score: 0, accuracy: 0, playcount: 0, pp: 0 }
    }

    pub fn zero() -> (r: Stats)
        ensures
            r == Stats::spec_zero(),
    {
        Stats { total_score: 0, ranked_score: 0, accuracy: 0, playcount: 0, pp: 0 }
    }
}

/// Bytes waiting to be sent to one client.
pub struct PacketQueue {
    queue: Vec<u8>,
}

impl View for PacketQueue {
    type V = Seq<u8>;

    closed spec fn view(&self) -> Seq<u8> {
        self.queue@
    }
}

impl PacketQueue {
    pub fn new() -> (r: Self)
        ensures
            r@ == Seq::<u8>::empty(),
    {
        Self { queue: Vec::new() }
    }

    /// Hands over everything queued and leaves the queue empty.
    pub fn dequeue(&mut self) -> (r: Vec<u8>)
        ensures
            r@ == old(self)@,
            final(self)@ == Seq::<u8>::empty(),
    {
        let mut out: Vec<u8> = Vec::new();
        out.append(&mut self.queue);
        assert(out@ =~= old(self)@);
        out
    }

    /// Appends `bytes` to the queue.
    pub fn enqueue(&mut self, bytes: &[u8])
        ensures
            final(self)@ == old(self)@ + bytes@,
    {
        append_bytes(&mut self.queue, bytes);
    }
}

/// A change to persisted friendships that the caller carries out.
#[derive(Clone, Copy, Debug, PartialEq, Eq, Structural)]
pub enum StoreOp {
    AddFriend { user: i32, target: i32 },
    RemoveFriend { user: i32, target: i32 },
}

/// A connected client.
pub struct User {
    pub id: i32,
    pub username: String,
    pub osuver: String,
    pub password_md5: String,
    pub silence_end: i32,
    pub privileges: Privileges,
    /// Privilege byte shown to clients.
    pub bancho_priv: u8,
    pub utc_offset: i32,
    pub country: String,
    pub geoloc: u8,
    /// Bits of the 32-bit float longitude.
    pub long: u32,
    /// Bits of the 32-bit float latitude.
    pub lat: u32,
    pub action: Action,
    pub info_text: String,
    pub map_md5: String,
    pub mods: Mods,
    pub current_mode: Mode,
    pub map_id: i32,
    /// Session token; the only way a request finds its session.
    pub token: String,
    pub queue: PacketQueue,
    /// One record per mode, indexed by the mode's value.
    pub stats: Vec<Stats>,
    pub friends: Vec<i32>,
    pub spectating: Option<i32>,
    pub spectators: Vec<i32>,
}

impl User {
    /// A session in its initial state: idle, no mods, std, nothing queued,
    /// zeroed statistics, no relationships.
    pub fn new(id: i32, username: String, token: String, privileges: Privileges) -> (r: User)
        ensures
            r.id == id,
            r.username@ == username@,
            r.token@ == token@,
            r.privileges == privileges,
            r.action == Action::Idle,
            r.current_mode == Mode::Std,
            r.mods.bits == MOD_NOMOD,
            r.queue@ == Seq::<u8>::empty(),
            r.stats@ == Seq::new(MODE_COUNT as nat, |i: int| Stats::spec_zero()),
            r.friends@ == Seq::<i32>::empty(),
            r.spectating is None,
            r.spectators@ == Seq::<i32>::empty(),
    {
        let mut stats: Vec<Stats> = Vec::new();
        let mut i: usize = 0;
        while i < MODE_COUNT
            invariant
                i <= MODE_COUNT,
                stats@ == Seq::new(i as nat, |j: int| Stats::spec_zero()),
            decreases MODE_COUNT - i,
        {
            stats.push(Stats::zero());
            i = i + 1;
            assert(stats@ =~= Seq::new(i as nat, |j: int| Stats::spec_zero()));
        }
        User {
            id: id,
            username: username,
            osuver: String::new(),
            password_md5: String::new(),
            silence_end: 0,
            privileges: privileges,
            bancho_priv: 0,
            utc_offset: 0,
            country: String::new(),
            geoloc: 0,
            long: 0,
            lat: 0,
            action: Action::Idle,
            info_text: String::new(),
            map_md5: String::new(),
            mods: Mods { bits: MOD_NOMOD },
            current_mode: Mode::Std,
            map_id: 0,
            token: token,
            queue: PacketQueue::new(),
            stats: stats,
            friends: Vec::new(),
            spectating: None,
            spectators: Vec::new(),
        }
    }

    /// Restricted: the public privilege bit is clear.
    pub open spec fn spec_restricted(&self) -> bool {
        !self.privileges.spec_public()
    }

    /// The statistics of the current mode; zero where no record is held.
    pub open spec fn spec_current_stats(&self) -> Stats {
        let i = self.current_mode.spec_value() as int;
        if i < self.stats@.len() {
            self.stats@[i]
        } else {
            Stats::spec_zero()
        }
    }

    pub fn restricted(&self) -> (r: bool)
        ensures
            r == self.spec_restricted(),
    {
        !self.privileges.is_public()
    }

    pub fn current_stats(&self) -> (r: Stats)
        ensures
            r == self.spec_current_stats(),
    {
        let i = self.current_mode.value() as usize;
        if i < self.stats.len() {
            self.stats[i]
        } else {
            Stats::zero()
        }
    }

    /// Queues bytes for this client.
    pub fn enqueue(&mut self, bytes: &[u8])
        ensures
            final(self).queue@ == old(self).queue@ + bytes@,
            *final(self) == (User { queue: final(self).queue, ..*old(self) }),
    {
        self.queue.enqueue(bytes);
    }

    /// Takes everything queued for this client.
    pub fn dequeue(&mut self) -> (r: Vec<u8>)
        ensures
            r@ == old(self).queue@,
            final(self).queue@ == Seq::<u8>::empty(),
            *final(self) == (User { queue: final(self).queue, ..*old(self) }),
    {
        self.queue.dequeue()
    }

    /// Adds `target` to the friends; the store is to record it too.
    pub fn add_friend(&mut self, target: i32) -> (r: StoreOp)
        ensures
            final(self).friends@ == old(self).friends@.push(target),
            *final(self) == (User { friends: final(self).friends, ..*old(self) }),
            r == (StoreOp::AddFriend { user: old(self).id, target: target }),
    {
        self.friends.push(target);
        StoreOp::AddFriend { user: self.id, target: target }
    }

    /// Drops `target` from the friends; the store is to forget it too.
    /// Nothing changes where `target` is no friend.
    pub fn remove_friend(&mut self, target: i32) -> (r: Option<StoreOp>)
        ensures
            final(self).friends@ == remove_first(old(self).friends@, target),
            *final(self) == (User { friends: final(self).friends, ..*old(self) }),
            r == (if old(self).friends@.contains(target) {
                Some(StoreOp::RemoveFriend { user: old(self).id, target: target })
            } else {
                None
            }),
    {
        if remove_value(&mut self.friends, target) {
            Some(StoreOp::RemoveFriend { user: self.id, target: target })
        } else {
            None
        }
    }
}

} // verus!
