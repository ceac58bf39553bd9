//! In-process models of the two persisted registries.
//!
//! `UserRegistry` models the `users` collection and `BotRegistry` the
//! `bots` collection: each is the sequence of documents the core works
//! on, with the collection's uniqueness invariant.  The surrounding
//! process loads the collections into these models and mirrors every
//! mutation back to the store.

use vstd::prelude::*;

use crate::structs::{BotV, DBBot, DBUser, UserV};

verus! {

/// No two records share a user id.
pub open spec fn user_ids_unique(s: Seq<UserV>) -> bool {
    forall|i: int, j: int| 0 <= i < j < s.len() ==> s[i].user_id != s[j].user_id
}

/// Some record carries this user id.
pub open spec fn has_user(s: Seq<UserV>, id: u64) -> bool {
    exists|i: int| 0 <= i < s.len() && s[i].user_id == id
}

/// Some record carries this user id with role `"admin"`.
pub open spec fn is_admin_in(s: Seq<UserV>, id: u64) -> bool {
    exists|i: int| 0 <= i < s.len() && s[i].user_id == id && s[i].role == "admin"@
}

/// A user absent from the registry is never an admin, and neither is a
/// present user none of whose records carries the role `"admin"`.
pub proof fn lemma_admin_needs_admin_record(s: Seq<UserV>, id: u64)
    ensures
        !has_user(s, id) ==> !is_admin_in(s, id),
        (forall|i: int| 0 <= i < s.len() && (#[trigger] s[i]).user_id == id ==> s[i].role
            != "admin"@) ==> !is_admin_in(s, id),
{
}

/// The record as `/start` leaves it: reactivated, with the current
/// mirror's token appended to `active_in` if it was missing.
pub open spec fn reactivated(u: UserV, token: Seq<char>) -> UserV {
    UserV {
        is_active: true,
        active_in: if u.active_in.contains(token) {
            u.active_in
        } else {
            u.active_in.push(token)
        },
        ..u
    }
}

/// The record `/start` creates for a first-time sender.
pub open spec fn new_user(id: u64, token: Seq<char>) -> UserV {
    UserV {
        user_id: id,
        role: "default"@,
        active_in: seq![token],
        created_mirrors: Seq::empty(),
        is_active: true,
    }
}

/// The registry as `/start` leaves it.
pub open spec fn started(s: Seq<UserV>, id: u64, token: Seq<char>) -> Seq<UserV> {
    if has_user(s, id) {
        s.map(
            |i: int, u: UserV|
                if u.user_id == id {
                    reactivated(u, token)
                } else {
                    u
                },
        )
    } else {
        s.push(new_user(id, token))
    }
}

/// The registry with the given user's role escalated to `"admin"`.
pub open spec fn promoted(s: Seq<UserV>, id: u64) -> Seq<UserV> {
    s.map(
        |i: int, u: UserV|
            if u.user_id == id {
                UserV { role: "admin"@, ..u }
            } else {
                u
            },
    )
}

/// The shared user/role registry: one record per human, keyed by the
/// provider's numeric user id.
pub struct UserRegistry {
    pub users: Vec<DBUser>,
}

impl View for UserRegistry {
    type V = Seq<UserV>;

    open spec fn view(&self) -> Seq<UserV> {
        self.users@.map_values(|u: DBUser| u@)
    }
}

impl UserRegistry {
    /// The collection invariant: user ids are unique.
    pub open spec fn wf(&self) -> bool {
        user_ids_unique(self@)
    }

    /// An empty registry.
    pub fn new() -> (r: UserRegistry)
        ensures
            r@ == Seq::<UserV>::empty(),
            r.wf(),
    {
        let r = UserRegistry { users: Vec::new() };
        proof {
            assert(r@ =~= Seq::<UserV>::empty());
        }
        r
    }

    /// Whether any record carries this user id.
    pub fn contains_user(&self, id: u64) -> (r: bool)
        ensures
            r == has_user(self@, id),
    {
        let n = self.users.len();
        let mut i: usize = 0;
        while i < n
            invariant
                n == self.users@.len(),
                i <= n,
                forall|j: int| 0 <= j < i ==> (#[trigger] self@[j]).user_id != id,
            decreases n - i,
        {
            if self.users[i].user_id == id {
                assert(self@[i as int].user_id == id);
                return true;
            }
            i = i + 1;
        }
        false
    }

    /// The authorization predicate: true iff the user is present with
    /// role `"admin"`.
    pub fn is_admin(&self, id: u64) -> (r: bool)
        requires
            self.wf(),
        ensures
            r == is_admin_in(self@, id),
    {
        let n = self.users.len();
        let admin = admin_role();
        let mut i: usize = 0;
        while i < n
            invariant
                n == self.users@.len(),
                i <= n,
                self.wf(),
                admin@ == "admin"@,
                forall|j: int| 0 <= j < i ==> (#[trigger] self@[j]).user_id != id,
            decreases n - i,
        {
            if self.users[i].user_id == id {
                let r = self.users[i].role == admin;
                proof {
                    if r {
                        assert(self@[i as int].user_id == id && self@[i as int].role == "admin"@);
                    } else {
                        assert forall|j: int|
                            0 <= j < self@.len() && (#[trigger] self@[j]).user_id
                                == id implies self@[j].role != "admin"@ by {
                            assert(j == i);
                        }
                    }
                }
                return r;
            }
            i = i + 1;
        }
        false
    }

    /// Handles `/start` for `id` on the mirror bound to `token`:
    /// creates the record with role `"default"` if absent, otherwise
    /// reactivates it and records the mirror if it was unknown.
    pub fn start_user(&mut self, id: u64, token: &String)
        requires
            old(self).wf(),
        ensures
            final(self).wf(),
            final(self)@ == started(old(self)@, id, token@),
    {
        let n = self.users.len();
        let mut i: usize = 0;
        while i < n
            invariant
                n == self.users@.len(),
                i <= n,
                old(self).wf(),
                self@ == old(self)@,
                self.users@ == old(self).users@,
                forall|j: int| 0 <= j < i ==> (#[trigger] self@[j]).user_id != id,
            decreases n - i,
        {
            if self.users[i].user_id == id {
                proof {
                    assert(self@[i as int].user_id == id);
                    assert(has_user(self@, id));
                }
                self.reactivate_at(i, id, token);
                return ;
            }
            i = i + 1;
        }
        let mut active_in: Vec<String> = Vec::new();
        active_in.push(token.clone());
        let record = DBUser {
            user_id: id,
            role: default_role(),
            active_in,
            created_mirrors: Vec::new(),
            is_active: true,
        };
        proof {
            assert(record@.active_in =~= seq![token@]);
            assert(record@.created_mirrors =~= Seq::<Seq<char>>::empty());
            assert(record@ =~~= new_user(id, token@));
            assert(!has_user(self@, id));
        }
        self.users.push(record);
        proof {
            assert(self@ =~~= old(self)@.push(new_user(id, token@)));
        }
    }

    /// Reactivates the record at `i` for `/start`, appending `token` to
    /// its mirrors if missing.
    fn reactivate_at(&mut self, i: usize, id: u64, token: &String)
        requires
            old(self).wf(),
            i < old(self)@.len(),
            old(self)@[i as int].user_id == id,
            has_user(old(self)@, id),
        ensures
            final(self).wf(),
            final(self)@ == started(old(self)@, id, token@),
    {
        let ghost orig = self@;
        self.users[i].is_active = true;
        let ghost mid = self@;
        proof {
            assert(mid =~~= orig.update(i as int, UserV { is_active: true, ..orig[i as int] }));
        }
        let m = self.users[i].active_in.len();
        let mut k: usize = 0;
        let mut present = false;
        while k < m
            invariant
                i < self.users@.len(),
                m == self.users@[i as int].active_in@.len(),
                k <= m,
                self@ == mid,
                self@[i as int] == mid[i as int],
                present == exists|j: int|
                    0 <= j < k && #[trigger] mid[i as int].active_in[j] == token@,
            decreases m - k,
        {
            if !present && self.users[i].active_in[k] == *token {
                proof {
                    assert(mid[i as int].active_in[k as int] == token@);
                }
                present = true;
            }
            k = k + 1;
        }
        proof {
            assert(present == mid[i as int].active_in.contains(token@));
        }
        if !present {
            self.users[i].active_in.push(token.clone());
            proof {
                assert(self@ =~~= mid.update(
                    i as int,
                    UserV {
                        active_in: mid[i as int].active_in.push(token@),
                        ..mid[i as int]
                    },
                ));
            }
        }
        proof {
            assert(self@[i as int] =~~= reactivated(orig[i as int], token@));
            assert forall|j: int| 0 <= j < self@.len() && j != i implies self@[j] == orig[j] by {}
            assert forall|j: int|
                0 <= j < orig.len() && j != i implies (#[trigger] orig[j]).user_id != id by {
                if j < i {
                    assert(orig[j].user_id != orig[i as int].user_id);
                } else {
                    assert(orig[i as int].user_id != orig[j].user_id);
                }
            }
            assert(self@ =~~= started(orig, id, token@));
        }
    }

    /// Escalates the role of the user with this id to `"admin"`; leaves
    /// every other record unchanged.
    pub fn promote(&mut self, id: u64)
        requires
            old(self).wf(),
        ensures
            final(self).wf(),
            final(self)@ == promoted(old(self)@, id),
    {
        let n = self.users.len();
        let mut i: usize = 0;
        while i < n
            invariant
                n == self.users@.len(),
                i <= n,
                self@ == old(self)@,
                self.users@ == old(self).users@,
                old(self).wf(),
                forall|j: int| 0 <= j < i ==> (#[trigger] self@[j]).user_id != id,
            decreases n - i,
        {
            if self.users[i].user_id == id {
                self.users[i].role = admin_role();
                proof {
                    assert forall|j: int|
                        0 <= j < old(self)@.len() && j != i implies (#[trigger] old(
                        self,
                    )@[j]).user_id != id by {
                        if j < i {
                        } else {
                            assert(old(self)@[i as int].user_id != old(self)@[j].user_id);
                        }
                    }
                    assert(self@ =~~= promoted(old(self)@, id));
                }
                return ;
            }
            i = i + 1;
        }
        proof {
            assert(self@ =~~= promoted(old(self)@, id));
        }
    }
}

/// The literal role `"admin"` as an owned string.
fn admin_role() -> (r: String)
    ensures
        r@ == "admin"@,
{
    String::from_str("admin")
}

/// The literal role `"default"` as an owned string.
fn default_role() -> (r: String)
    ensures
        r@ == "default"@,
{
    String::from_str("default")
}

/// No two records share a token.
pub open spec fn tokens_unique(s: Seq<BotV>) -> bool {
    forall|i: int, j: int| 0 <= i < j < s.len() ==> s[i].token != s[j].token
}

/// Some record carries this token.
pub open spec fn has_token(s: Seq<BotV>, t: Seq<char>) -> bool {
    exists|i: int| 0 <= i < s.len() && s[i].token == t
}

/// The registry with the record of this token flagged inactive.
pub open spec fn deactivated(s: Seq<BotV>, t: Seq<char>) -> Seq<BotV> {
    s.map(
        |i: int, b: BotV|
            if b.token == t {
                BotV { is_active: false, ..b }
            } else {
                b
            },
    )
}

/// The tokens of the active records, in registry order.
pub open spec fn active_tokens_of(s: Seq<BotV>) -> Seq<Seq<char>>
    decreases s.len(),
{
    if s.len() == 0 {
        Seq::empty()
    } else {
        let rest = active_tokens_of(s.drop_last());
        if s.last().is_active {
            rest.push(s.last().token)
        } else {
            rest
        }
    }
}

/// The registry of mirror credentials, keyed by token.
pub struct BotRegistry {
    pub bots: Vec<DBBot>,
}

impl View for BotRegistry {
    type V = Seq<BotV>;

    open spec fn view(&self) -> Seq<BotV> {
        self.bots@.map_values(|b: DBBot| b@)
    }
}

impl BotRegistry {
    /// The collection invariant: tokens are unique.
    pub open spec fn wf(&self) -> bool {
        tokens_unique(self@)
    }

    /// An empty registry.
    pub fn new() -> (r: BotRegistry)
        ensures
            r@ == Seq::<BotV>::empty(),
            r.wf(),
    {
        let r = BotRegistry { bots: Vec::new() };
        proof {
            assert(r@ =~= Seq::<BotV>::empty());
        }
        r
    }

    /// Whether any record carries this token.
    pub fn contains_token(&self, t: &String) -> (r: bool)
        ensures
            r == has_token(self@, t@),
    {
        let n = self.bots.len();
        let mut i: usize = 0;
        while i < n
            invariant
                n == self.bots@.len(),
                i <= n,
                forall|j: int| 0 <= j < i ==> (#[trigger] self@[j]).token != t@,
            decreases n - i,
        {
            if self.bots[i].token == *t {
                assert(self@[i as int].token == t@);
                return true;
            }
            i = i + 1;
        }
        false
    }

    /// Appends a record; the caller guarantees its token is new.
    pub fn insert_bot(&mut self, b: DBBot)
        requires
            old(self).wf(),
            !has_token(old(self)@, b@.token),
        ensures
            final(self).wf(),
            final(self)@ == old(self)@.push(b@),
    {
        self.bots.push(b);
        proof {
            assert(self@ =~~= old(self)@.push(b@));
        }
    }

    /// Flags the record with this token inactive; a no-op when the token
    /// is unknown.
    pub fn deactivate(&mut self, t: &String)
        ensures
            final(self)@ == deactivated(old(self)@, t@),
            final(self).wf() == old(self).wf(),
    {
        let n = self.bots.len();
        let mut i: usize = 0;
        while i < n
            invariant
                n == self.bots@.len(),
                i <= n,
                self@.len() == old(self)@.len(),
                forall|j: int| 0 <= j < self@.len() ==> (#[trigger] self@[j]).token == old(
                    self,
                )@[j].token,
                forall|j: int|
                    0 <= j < i ==> #[trigger] self@[j] == (if old(self)@[j].token == t@ {
                        BotV { is_active: false, ..old(self)@[j] }
                    } else {
                        old(self)@[j]
                    }),
                forall|j: int| i <= j < self@.len() ==> #[trigger] self@[j] == old(self)@[j],
            decreases n - i,
        {
            let ghost prev = self@;
            if self.bots[i].token == *t {
                self.bots[i].is_active = false;
                proof {
                    assert(self@ =~~= prev.update(
                        i as int,
                        BotV { is_active: false, ..prev[i as int] },
                    ));
                }
            }
            i = i + 1;
        }
        proof {
            assert(self@ =~~= deactivated(old(self)@, t@));
            assert forall|a: int, b: int|
                0 <= a < b < self@.len() implies (self@[a].token != self@[b].token) == (old(
                self,
            )@[a].token != old(self)@[b].token) by {}
        }
    }

    /// The tokens of every active record, for the bootstrap pass.
    pub fn active_tokens(&self) -> (r: Vec<String>)
        ensures
            r@.map_values(|t: String| t@) == active_tokens_of(self@),
    {
        let n = self.bots.len();
        let mut r: Vec<String> = Vec::new();
        let mut i: usize = 0;
        proof {
            assert(r@.map_values(|t: String| t@) =~= active_tokens_of(self@.take(0)));
        }
        while i < n
            invariant
                n == self.bots@.len(),
                i <= n,
                r@.map_values(|t: String| t@) == active_tokens_of(self@.take(i as int)),
            decreases n - i,
        {
            proof {
                assert(self@.take(i + 1).drop_last() =~= self@.take(i as int));
                assert(self@.take(i + 1).last() == self@[i as int]);
            }
            if self.bots[i].is_active {
                r.push(self.bots[i].token.clone());
                proof {
                    assert(r@.map_values(|t: String| t@) =~= active_tokens_of(
                        self@.take(i as int),
                    ).push(self@[i as int].token));
                }
            }
            i = i + 1;
        }
        proof {
            assert(self@.take(n as int) =~= self@);
        }
        r
    }
}

} // verus!
