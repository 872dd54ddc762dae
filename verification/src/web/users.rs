//! The users that the frontend has seen, kept by id so that each is asked
//! for only once.

use vstd::prelude::*;

verus! {

/// A user, as the frontend shows it.
#[derive(Debug, PartialEq, Eq)]
pub struct User {
    pub id: String,
    pub username: String,
    pub email: String,
}

pub struct UserView {
    pub id: Seq<char>,
    pub username: Seq<char>,
    pub email: Seq<char>,
}

impl View for User {
    type V = UserView;

    open spec fn view(&self) -> UserView {
        UserView { id: self.id@, username: self.username@, email: self.email@ }
    }
}

impl Clone for User {
    fn clone(&self) -> (copy: Self)
        ensures
            copy == *self,
    {
        User { id: self.id.clone(), username: self.username.clone(), email: self.email.clone() }
    }
}

/// Whether the list holds a user under the id at position `i`.
pub open spec fn kept_at(entries: Seq<(String, User)>, id: Seq<char>, i: int) -> bool {
    0 <= i < entries.len() && entries[i].0@ == id
}

/// Whether the list holds a user under the id.
pub open spec fn kept(entries: Seq<(String, User)>, id: Seq<char>) -> bool {
    exists|i: int| kept_at(entries, id, i)
}

/// The users of a list, by id.
pub open spec fn users_by_id(entries: Seq<(String, User)>) -> Map<Seq<char>, UserView> {
    Map::new(
        |id: Seq<char>| kept(entries, id),
        |id: Seq<char>| entries[choose|i: int| kept_at(entries, id, i)].1@,
    )
}

/// Whether no id occurs twice in the list.
pub open spec fn ids_distinct(entries: Seq<(String, User)>) -> bool {
    forall|i: int, j: int|
        0 <= i < j < entries.len() ==> (#[trigger] entries[i]).0@ != (#[trigger] entries[j]).0@
}

/// The users seen so far, each under its id.
pub struct UserCache {
    entries: Vec<(String, User)>,
}

impl View for UserCache {
    type V = Map<Seq<char>, UserView>;

    closed spec fn view(&self) -> Map<Seq<char>, UserView> {
        users_by_id(self.entries@)
    }
}

impl UserCache {
    /// Whether the cache is in order: it holds no id twice.
    pub closed spec fn well_formed(&self) -> bool {
        ids_distinct(self.entries@)
    }

    /// A cache that holds no user.
    pub fn new() -> (cache: UserCache)
        ensures
            cache.well_formed(),
            cache@ == Map::<Seq<char>, UserView>::empty(),
    {
        let cache = UserCache { entries: Vec::new() };
        assert(cache@ =~= Map::<Seq<char>, UserView>::empty());
        cache
    }

    fn position(&self, id: &String) -> (found: Option<usize>)
        ensures
            match found {
                Some(i) => kept_at(self.entries@, id@, i as int),
                None => forall|i: int| !kept_at(self.entries@, id@, i),
            },
    {
        let mut i: usize = 0;
        while i < self.entries.len()
            invariant
                i <= self.entries.len(),
                forall|j: int| 0 <= j < i ==> !kept_at(self.entries@, id@, j),
            decreases self.entries.len() - i,
        {
            if self.entries[i].0 == *id {
                return Some(i);
            }
            i += 1;
        }
        None
    }

    /// The user kept under the id, if there is one.
    pub fn get(&self, id: &str) -> (user: Option<User>)
        requires
            self.well_formed(),
        ensures
            match user {
                Some(u) => self@.dom().contains(id@) && u@ == self@[id@],
                None => !self@.dom().contains(id@),
            },
    {
        let wanted = id.to_owned();
        match self.position(&wanted) {
            Some(i) => {
                proof {
                    let chosen = choose|k: int| kept_at(self.entries@, id@, k);
                    assert(chosen == i) by {
                        if chosen < i {
                            assert(self.entries@[chosen].0@ != self.entries@[i as int].0@);
                        }
                        if i < chosen {
                            assert(self.entries@[i as int].0@ != self.entries@[chosen].0@);
                        }
                    }
                }
                Some(self.entries[i].1.clone())
            },
            None => None,
        }
    }

    /// Keeps the user under the id, in place of the user that was kept
    /// under it before, if there was one.
    pub fn insert(&mut self, id: String, user: User)
        requires
            old(self).well_formed(),
        ensures
            final(self).well_formed(),
            final(self)@ == old(self)@.insert(id@, user@),
    {
        let ghost before = self.entries@;
        let ghost key = id@;
        let ghost value = user@;
        match self.position(&id) {
            Some(i) => {
                self.entries.set(i, (id, user));
                let ghost after = self.entries@;
                proof {
                    assert forall|a: int, b: int| 0 <= a < b < after.len() implies (
                    #[trigger] after[a]).0@ != (#[trigger] after[b]).0@ by {
                        assert(after[a].0@ == before[a].0@);
                        assert(after[b].0@ == before[b].0@);
                        assert(before[a].0@ != before[b].0@);
                    }
                    assert forall|k: Seq<char>|
                        #[trigger] kept(after, k) == (k == key || kept(before, k)) by {
                        if exists|j: int| kept_at(after, k, j) {
                            let j = choose|j: int| kept_at(after, k, j);
                            assert(kept_at(before, k, j));
                        }
                        if exists|j: int| kept_at(before, k, j) {
                            let j = choose|j: int| kept_at(before, k, j);
                            assert(kept_at(after, k, j));
                        }
                        if k == key {
                            assert(kept_at(after, k, i as int));
                        }
                    }
                    assert forall|k: Seq<char>| #[trigger] kept(after, k) implies users_by_id(
                        after,
                    )[k] == users_by_id(before).insert(key, value)[k] by {
                        let j = choose|j: int| kept_at(after, k, j);
                        if k == key {
                            if j != i {
                                let lo = if j < i { j } else { i as int };
                                let hi = if j < i { i as int } else { j };
                                assert(after[lo].0@ != after[hi].0@);
                            }
                        } else {
                            assert(kept_at(before, k, j));
                            let m = choose|m: int| kept_at(before, k, m);
                            if m != j {
                                let lo = if j < m { j } else { m };
                                let hi = if j < m { m } else { j };
                                assert(before[lo].0@ != before[hi].0@);
                            }
                        }
                    }
                    assert(users_by_id(after) =~= users_by_id(before).insert(key, value));
                }
            },
            None => {
                self.entries.push((id, user));
                let ghost after = self.entries@;
                proof {
                    let last = after.len() - 1;
                    assert forall|a: int, b: int| 0 <= a < b < after.len() implies (
                    #[trigger] after[a]).0@ != (#[trigger] after[b]).0@ by {
                        if b == last {
                            assert(!kept_at(before, key, a));
                        } else {
                            assert(before[a].0@ != before[b].0@);
                        }
                    }
                    assert forall|k: Seq<char>|
                        #[trigger] kept(after, k) == (k == key || kept(before, k)) by {
                        if exists|j: int| kept_at(after, k, j) {
                            let j = choose|j: int| kept_at(after, k, j);
                            if j < last {
                                assert(kept_at(before, k, j));
                            }
                        }
                        if exists|j: int| kept_at(before, k, j) {
                            let j = choose|j: int| kept_at(before, k, j);
                            assert(kept_at(after, k, j));
                        }
                        if k == key {
                            assert(kept_at(after, k, last));
                        }
                    }
                    assert forall|k: Seq<char>| #[trigger] kept(after, k) implies users_by_id(
                        after,
                    )[k] == users_by_id(before).insert(key, value)[k] by {
                        let j = choose|j: int| kept_at(after, k, j);
                        if k == key {
                            if j != last {
                                assert(kept_at(before, key, j));
                            }
                        } else {
                            assert(kept_at(before, k, j));
                            let m = choose|m: int| kept_at(before, k, m);
                            if m != j {
                                let lo = if j < m { j } else { m };
                                let hi = if j < m { m } else { j };
                                assert(before[lo].0@ != before[hi].0@);
                            }
                        }
                    }
                    assert(users_by_id(after) =~= users_by_id(before).insert(key, value));
                }
            },
        }
    }
}

} // verus!
