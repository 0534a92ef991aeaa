//! The registry of live sessions, addressable by id, name and token.
use vstd::prelude::*;

use crate::session::User;

verus! {

/// Index of the first session of `s` that `p` holds of; -1 when none does.
pub open spec fn first_index(s: Seq<User>, p: spec_fn(User) -> bool) -> int
    decreases s.len(),
{
    if s.len() == 0 {
        -1
    } else if p(s[0]) {
        0
    } else {
        let r = first_index(s.drop_first(), p);
        if r < 0 {
            -1
        } else {
            r + 1
        }
    }
}

pub proof fn lemma_first_index(s: Seq<User>, p: spec_fn(User) -> bool, i: int)
    requires
        0 <= i <= s.len(),
        forall|j: int| 0 <= j < i ==> !p(s[j]),
        i == s.len() || p(s[i]),
    ensures
        first_index(s, p) == (if i == s.len() {
            -1
        } else {
            i
        }),
    decreases s.len(),
{
    if s.len() > 0 && i > 0 {
        assert forall|j: int| 0 <= j < i - 1 implies !p(s.drop_first()[j]) by {
            assert(s.drop_first()[j] == s[j + 1]);
        }
        lemma_first_index(s.drop_first(), p, i - 1);
    }
}

pub proof fn lemma_first_index_found(s: Seq<User>, p: spec_fn(User) -> bool)
    ensures
        first_index(s, p) >= 0 ==> first_index(s, p) < s.len() && p(s[first_index(s, p)])
            && forall|j: int| 0 <= j < first_index(s, p) ==> !p(#[trigger] s[j]),
        first_index(s, p) < 0 ==> forall|j: int| 0 <= j < s.len() ==> !p(#[trigger] s[j]),
        first_index(s, p) >= -1,
    decreases s.len(),
{
    if s.len() > 0 {
        lemma_first_index_found(s.drop_first(), p);
        if !p(s[0]) {
            assert forall|j: int| 0 < j < s.len() && (first_index(s, p) < 0 || j < first_index(s, p))
                implies !p(#[trigger] s[j]) by {
                assert(s[j] == s.drop_first()[j - 1]);
            }
        }
    }
}

pub open spec fn id_is(id: i32) -> spec_fn(User) -> bool {
    |u: User| u.id == id
}

pub open spec fn name_is(name: Seq<char>) -> spec_fn(User) -> bool {
    |u: User| u.username@ == name
}

pub open spec fn token_is(token: Seq<char>) -> spec_fn(User) -> bool {
    |u: User| u.token@ == token
}

/// `r` is the lookup result for index `i`: `None` for -1.
pub open spec fn found_at(r: Option<usize>, i: int) -> bool {
    match r {
        Some(k) => k == i,
        None => i < 0,
    }
}

/// `new` is `old` with `extra` queued and nothing else changed.
pub open spec fn queued(old: User, new: User, extra: Seq<u8>) -> bool {
    new == (User { queue: new.queue, ..old }) && new.queue@ == old.queue@ + extra
}

/// No two sessions share an id.
pub open spec fn ids_unique(s: Seq<User>) -> bool {
    forall|i: int, j: int| 0 <= i < j < s.len() ==> s[i].id != s[j].id
}

/// Every session of `old` got `extra(its id)` queued, and nothing else changed.
pub open spec fn all_queued(old: Seq<User>, new: Seq<User>, ids: Seq<i32>, extra: Seq<u8>) -> bool {
    new.len() == old.len() && forall|k: int|
        0 <= k < old.len() ==> queued(
            old[k],
            #[trigger] new[k],
            if ids.contains(old[k].id) {
                extra
            } else {
                Seq::empty()
            },
        )
}

/// Every session of `old` got `extra` queued, and nothing else changed.
pub open spec fn everyone_queued(old: Seq<User>, new: Seq<User>, extra: Seq<u8>) -> bool {
    new.len() == old.len() && forall|k: int|
        0 <= k < old.len() ==> queued(old[k], #[trigger] new[k], extra)
}

/// The live sessions.
pub struct PlayerList {
    players: Vec<User>,
}

impl PlayerList {
    pub closed spec fn sessions(&self) -> Seq<User> {
        self.players@
    }

    pub open spec fn wf(&self) -> bool {
        ids_unique(self.sessions())
    }

    /// Index of the session with id `id`; -1 when there is none.
    pub open spec fn index_of(&self, id: i32) -> int {
        first_index(self.sessions(), id_is(id))
    }

    pub open spec fn registered(&self, id: i32) -> bool {
        self.index_of(id) >= 0
    }

    /// The sessions that broadcasting `extra` to all leaves.
    pub open spec fn broadcast_to(&self, next: &PlayerList, extra: Seq<u8>) -> bool {
        everyone_queued(self.sessions(), next.sessions(), extra)
    }

    /// What the index of an id says of the sessions.
    pub proof fn lemma_index_of(&self, id: i32)
        ensures
            self.index_of(id) >= -1,
            self.registered(id) ==> self.index_of(id) < self.sessions().len()
                && self.sessions()[self.index_of(id)].id == id,
            !self.registered(id) ==> forall|k: int|
                0 <= k < self.sessions().len() ==> #[trigger] self.sessions()[k].id != id,
    {
        lemma_first_index_found(self.sessions(), id_is(id));
        if !self.registered(id) {
            assert forall|k: int| 0 <= k < self.sessions().len() implies #[trigger] self.sessions()[k].id
                != id by {
                assert(!id_is(id)(self.sessions()[k]));
            }
        } else {
            assert(id_is(id)(self.sessions()[self.index_of(id)]));
        }
    }

    pub fn new() -> (r: Self)
        ensures
            r.sessions() == Seq::<User>::empty(),
            r.wf(),
    {
        Self { players: Vec::new() }
    }

    pub fn player_count(&self) -> (r: usize)
        ensures
            r == self.sessions().len(),
    {
        self.players.len()
    }

    /// The session at index `i`.
    pub fn get(&self, i: usize) -> (r: &User)
        requires
            i < self.sessions().len(),
        ensures
            *r == self.sessions()[i as int],
    {
        &self.players[i]
    }

    /// Index of the session with the given id.
    pub fn get_id(&self, user_id: i32) -> (r: Option<usize>)
        ensures
            found_at(r, self.index_of(user_id)),
            r matches Some(i) ==> i < self.sessions().len() && self.sessions()[i as int].id == user_id,
    {
        let mut i: usize = 0;
        while i < self.players.len()
            invariant
                i <= self.sessions().len(),
                forall|j: int| 0 <= j < i ==> !id_is(user_id)(self.sessions()[j]),
            decreases self.sessions().len() - i,
        {
            if self.players[i].id == user_id {
                proof {
                    lemma_first_index(self.sessions(), id_is(user_id), i as int);
                }
                return Some(i);
            }
            i = i + 1;
        }
        proof {
            lemma_first_index(self.sessions(), id_is(user_id), i as int);
        }
        None
    }

    /// Index of the first session with the given display name (case-sensitive).
    pub fn get_username(&self, username: &str) -> (r: Option<usize>)
        ensures
            found_at(r, first_index(self.sessions(), name_is(username@))),
            r matches Some(i) ==> i < self.sessions().len(),
    {
        let name = username.to_owned();
        let mut i: usize = 0;
        while i < self.players.len()
            invariant
                i <= self.sessions().len(),
                name@ == username@,
                forall|j: int| 0 <= j < i ==> !name_is(username@)(self.sessions()[j]),
            decreases self.sessions().len() - i,
        {
            if self.players[i].username == name {
                proof {
                    lemma_first_index(self.sessions(), name_is(username@), i as int);
                }
                return Some(i);
            }
            i = i + 1;
        }
        proof {
            lemma_first_index(self.sessions(), name_is(username@), i as int);
        }
        None
    }

    /// Index of the first session holding the given token.
    pub fn get_token(&self, token: &str) -> (r: Option<usize>)
        ensures
            found_at(r, first_index(self.sessions(), token_is(token@))),
            r matches Some(i) ==> i < self.sessions().len() && self.sessions()[i as int].token@
                == token@,
    {
        let wanted = token.to_owned();
        let mut i: usize = 0;
        while i < self.players.len()
            invariant
                i <= self.sessions().len(),
                wanted@ == token@,
                forall|j: int| 0 <= j < i ==> !token_is(token@)(self.sessions()[j]),
            decreases self.sessions().len() - i,
        {
            if self.players[i].token == wanted {
                proof {
                    lemma_first_index(self.sessions(), token_is(token@), i as int);
                }
                return Some(i);
            }
            i = i + 1;
        }
        proof {
            lemma_first_index(self.sessions(), token_is(token@), i as int);
        }
        None
    }

    /// Registers `player`, replacing the session with the same id if there is one.
    pub fn add_player(&mut self, player: User)
        requires
            old(self).wf(),
        ensures
            final(self).wf(),
            old(self).registered(player.id) ==> final(self).sessions() == old(self).sessions().update(
                old(self).index_of(player.id),
                player,
            ),
            !old(self).registered(player.id) ==> final(self).sessions() == old(
                self,
            ).sessions().push(player),
            final(self).registered(player.id),
            final(self).sessions()[final(self).index_of(player.id)] == player,
            forall|k: int|
                0 <= k < final(self).sessions().len() && #[trigger] final(self).sessions()[k].id
                    == player.id ==> k == final(self).index_of(player.id),
            old(self).registered(player.id) ==> final(self).sessions().len() == old(
                self,
            ).sessions().len(),
    {
        proof {
            lemma_first_index_found(self.sessions(), id_is(player.id));
        }
        let ghost before = self.sessions();
        let ghost id = player.id;
        let at: usize = match self.get_id(player.id) {
            Some(i) => {
                self.players.set(i, player);
                i
            },
            None => {
                self.players.push(player);
                self.players.len() - 1
            },
        };
        proof {
            let s = self.sessions();
            assert forall|j: int| 0 <= j < at implies !id_is(id)(#[trigger] s[j]) by {
                assert(s[j] == before[j]);
            }
            lemma_first_index(s, id_is(id), at as int);
            assert forall|a: int, b: int| 0 <= a < b < s.len() implies s[a].id != s[b].id by {
                if a != at && b != at {
                    assert(s[a] == before[a] && s[b] == before[b]);
                } else if a == at {
                    assert(s[b] == before[b]);
                    assert(!id_is(id)(before[b]) || b == at);
                } else {
                    assert(s[a] == before[a]);
                }
            }
        }
    }

    /// Takes the session at index `i` out of the registry.
    pub fn take(&mut self, i: usize) -> (r: User)
        requires
            old(self).wf(),
            i < old(self).sessions().len(),
        ensures
            final(self).wf(),
            r == old(self).sessions()[i as int],
            final(self).sessions() == old(self).sessions().remove(i as int),
    {
        self.players.remove(i)
    }

    /// Puts a session back at index `i`.
    pub fn restore(&mut self, i: usize, player: User)
        requires
            old(self).wf(),
            i <= old(self).sessions().len(),
            !old(self).registered(player.id),
        ensures
            final(self).wf(),
            final(self).sessions() == old(self).sessions().insert(i as int, player),
    {
        proof {
            lemma_first_index_found(self.sessions(), id_is(player.id));
        }
        self.players.insert(i, player);
        assert forall|a: int, b: int| 0 <= a < b < self.sessions().len() implies self.sessions()[a].id
            != self.sessions()[b].id by {
            if a == i {
                assert(!id_is(player.id)(old(self).sessions()[b - 1]));
            } else if b == i {
                assert(!id_is(player.id)(old(self).sessions()[a]));
            }
        }
    }

    /// Deregisters the session with id `user_id`, if any.
    pub fn remove(&mut self, user_id: i32)
        requires
            old(self).wf(),
        ensures
            final(self).wf(),
            !final(self).registered(user_id),
            old(self).registered(user_id) ==> final(self).sessions() == old(self).sessions().remove(
                old(self).index_of(user_id),
            ),
            !old(self).registered(user_id) ==> final(self).sessions() == old(self).sessions(),
    {
        proof {
            lemma_first_index_found(self.sessions(), id_is(user_id));
        }
        match self.get_id(user_id) {
            Some(i) => {
                let ghost before = self.sessions();
                proof {
                    lemma_first_index_found(before, id_is(user_id));
                    assert(i == first_index(before, id_is(user_id)));
                    assert(id_is(user_id)(before[i as int]));
                    assert(before[i as int].id == user_id);
                }
                self.players.remove(i);
                assert(self.sessions() == before.remove(i as int));
                proof {
                    assert forall|k: int| 0 <= k < self.sessions().len() implies #[trigger] self.sessions()[k].id
                        != user_id by {
                        if k < i {
                            assert(self.sessions()[k] == before[k]);
                            assert(before[k].id != before[i as int].id);
                        } else {
                            assert(self.sessions()[k] == before[k + 1]);
                            assert(before[k + 1].id != before[i as int].id);
                        }
                    }
                }
            },
            None => {},
        }
        proof {
            lemma_first_index_found(self.sessions(), id_is(user_id));
        }
    }

    /// Queues `bytes` for the session at index `i`.
    pub fn enqueue_at(&mut self, i: usize, bytes: &[u8])
        requires
            old(self).wf(),
            i < old(self).sessions().len(),
        ensures
            final(self).wf(),
            final(self).sessions().len() == old(self).sessions().len(),
            queued(old(self).sessions()[i as int], final(self).sessions()[i as int], bytes@),
            forall|k: int|
                0 <= k < old(self).sessions().len() && k != i ==> #[trigger] final(self).sessions()[k]
                    == old(self).sessions()[k],
    {
        self.players[i].enqueue(bytes);
    }

    /// Queues `bytes` for every registered session whose id `ids` holds.
    pub fn enqueue_to(&mut self, ids: &Vec<i32>, bytes: &[u8])
        requires
            old(self).wf(),
        ensures
            final(self).wf(),
            all_queued(old(self).sessions(), final(self).sessions(), ids@, bytes@),
    {
        let mut k: usize = 0;
        while k < self.players.len()
            invariant
                k <= self.sessions().len(),
                self.sessions().len() == old(self).sessions().len(),
                forall|j: int|
                    0 <= j < k ==> queued(
                        old(self).sessions()[j],
                        #[trigger] self.sessions()[j],
                        if ids@.contains(old(self).sessions()[j].id) {
                            bytes@
                        } else {
                            Seq::empty()
                        },
                    ),
                forall|j: int|
                    k <= j < self.sessions().len() ==> #[trigger] self.sessions()[j] == old(
                        self,
                    ).sessions()[j],
            decreases self.sessions().len() - k,
        {
            let id = self.players[k].id;
            if crate::session::contains_value(ids, id) {
                self.players[k].enqueue(bytes);
            } else {
                proof {
                    assert(self.sessions()[k as int].queue@ =~= self.sessions()[k as int].queue@
                        + Seq::<u8>::empty());
                }
            }
            k = k + 1;
        }
        assert forall|a: int, b: int| 0 <= a < b < self.sessions().len() implies self.sessions()[a].id
            != self.sessions()[b].id by {
            assert(self.sessions()[a].id == old(self).sessions()[a].id);
            assert(self.sessions()[b].id == old(self).sessions()[b].id);
        }
    }

    /// Queues `bytes` for every registered session.
    pub fn enqueue(&mut self, bytes: &[u8])
        requires
            old(self).wf(),
        ensures
            final(self).wf(),
            old(self).broadcast_to(final(self), bytes@),
    {
        let mut k: usize = 0;
        while k < self.players.len()
            invariant
                k <= self.sessions().len(),
                self.sessions().len() == old(self).sessions().len(),
                forall|j: int|
                    0 <= j < k ==> queued(old(self).sessions()[j], #[trigger] self.sessions()[j], bytes@),
                forall|j: int|
                    k <= j < self.sessions().len() ==> #[trigger] self.sessions()[j] == old(
                        self,
                    ).sessions()[j],
            decreases self.sessions().len() - k,
        {
            self.players[k].enqueue(bytes);
            k = k + 1;
        }
        assert forall|a: int, b: int| 0 <= a < b < self.sessions().len() implies self.sessions()[a].id
            != self.sessions()[b].id by {
            assert(self.sessions()[a].id == old(self).sessions()[a].id);
            assert(self.sessions()[b].id == old(self).sessions()[b].id);
        }
    }
}

} // verus!
