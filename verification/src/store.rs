//! An in-memory model of the relational `users` table: rows keyed by a
//! store-assigned, monotonically increasing id. Its mathematical content is a
//! finite map from id to record, and every operation is specified against
//! that map.

use vstd::prelude::*;
use crate::models::{InputUser, NewUser, User, UserView};

verus! {

/// The one failure the store reports: no row matches the given id.
#[derive(Debug)]
pub enum StoreError {
    NotFound,
}

/// The map a sequence of rows denotes: later rows win, so the entry for an id
/// is always the last-written record with that id.
pub open spec fn store_map(s: Seq<UserView>) -> Map<int, UserView>
    decreases s.len(),
{
    if s.len() == 0 {
        Map::empty()
    } else {
        store_map(s.drop_last()).insert(s.last().id, s.last())
    }
}

/// No two rows carry the same id.
pub open spec fn distinct_ids(s: Seq<UserView>) -> bool {
    forall|i: int, j: int|
        #![trigger s[i], s[j]]
        0 <= i < j < s.len() ==> s[i].id != s[j].id
}

/// An id is in the denoted map exactly when some row carries it.
pub proof fn lemma_store_map_dom(s: Seq<UserView>, id: int)
    ensures
        store_map(s).dom().contains(id) <==> exists|i: int|
            0 <= i < s.len() && (#[trigger] s[i]).id == id,
    decreases s.len(),
{
    if s.len() == 0 {
    } else {
        lemma_store_map_dom(s.drop_last(), id);
        if s.last().id == id {
            assert(s[s.len() - 1].id == id);
        } else if store_map(s).dom().contains(id) {
            let i = choose|i: int|
                0 <= i < s.drop_last().len() && (#[trigger] s.drop_last()[i]).id == id;
            assert(s[i].id == id);
        } else {
            assert forall|i: int| 0 <= i < s.len() implies (#[trigger] s[i]).id != id by {
                if i < s.len() - 1 {
                    assert(s.drop_last()[i] == s[i]);
                }
            }
        }
    }
}

proof fn lemma_distinct_drop_last(s: Seq<UserView>)
    requires
        distinct_ids(s),
        s.len() > 0,
    ensures
        distinct_ids(s.drop_last()),
{
    assert forall|i: int, j: int|
        #![trigger s.drop_last()[i], s.drop_last()[j]]
        0 <= i < j < s.drop_last().len() implies s.drop_last()[i].id != s.drop_last()[j].id by {
        assert(s.drop_last()[i] == s[i]);
        assert(s.drop_last()[j] == s[j]);
    }
}

/// A row's id is never carried by any other row, so a row indexes straight
/// into the denoted map: the map holds exactly that row under its id.
pub proof fn lemma_store_map_index(s: Seq<UserView>, i: int)
    requires
        distinct_ids(s),
        0 <= i < s.len(),
    ensures
        store_map(s).dom().contains(s[i].id),
        store_map(s)[s[i].id] == s[i],
    decreases s.len(),
{
    if i == s.len() - 1 {
    } else {
        lemma_distinct_drop_last(s);
        assert(s.drop_last()[i] == s[i]);
        lemma_store_map_index(s.drop_last(), i);
        assert(s[i].id != s[s.len() - 1].id);
    }
}

/// With distinct ids, the denoted map has exactly one entry per row.
pub proof fn lemma_store_map_len(s: Seq<UserView>)
    requires
        distinct_ids(s),
    ensures
        store_map(s).dom().finite(),
        store_map(s).dom().len() == s.len(),
    decreases s.len(),
{
    broadcast use vstd::set::group_set_axioms;

    if s.len() == 0 {
        assert(store_map(s).dom() =~= Set::<int>::empty());
    } else {
        lemma_distinct_drop_last(s);
        lemma_store_map_len(s.drop_last());
        lemma_store_map_dom(s.drop_last(), s.last().id);
        assert(!store_map(s.drop_last()).dom().contains(s.last().id)) by {
            if store_map(s.drop_last()).dom().contains(s.last().id) {
                let i = choose|i: int|
                    0 <= i < s.drop_last().len()
                    && (#[trigger] s.drop_last()[i]).id == s.last().id;
                assert(s.drop_last()[i] == s[i]);
                assert(s[i].id != s[s.len() - 1].id);
            }
        }
        assert(store_map(s).dom() =~= store_map(s.drop_last()).dom().insert(s.last().id));
    }
}

proof fn lemma_distinct_remove(s: Seq<UserView>, i: int)
    requires
        distinct_ids(s),
        0 <= i < s.len(),
    ensures
        distinct_ids(s.remove(i)),
{
    s.remove_ensures(i);
    assert forall|a: int, b: int|
        #![trigger s.remove(i)[a], s.remove(i)[b]]
        0 <= a < b < s.remove(i).len() implies s.remove(i)[a].id != s.remove(i)[b].id by {
        if a < i {
            assert(s.remove(i)[a] == s[a]);
        } else {
            assert(s.remove(i)[a] == s[a + 1]);
        }
        if b < i {
            assert(s.remove(i)[b] == s[b]);
        } else {
            assert(s.remove(i)[b] == s[b + 1]);
        }
    }
}

/// Removing a row removes exactly its entry from the denoted map.
pub proof fn lemma_store_map_remove(s: Seq<UserView>, i: int)
    requires
        distinct_ids(s),
        0 <= i < s.len(),
    ensures
        store_map(s.remove(i)) == store_map(s).remove(s[i].id),
    decreases s.len(),
{
    s.remove_ensures(i);
    if i == s.len() - 1 {
        assert(s.remove(i) =~= s.drop_last());
        lemma_store_map_dom(s.drop_last(), s[i].id);
        assert(!store_map(s.drop_last()).dom().contains(s[i].id)) by {
            if store_map(s.drop_last()).dom().contains(s[i].id) {
                let k = choose|k: int|
                    0 <= k < s.drop_last().len()
                    && (#[trigger] s.drop_last()[k]).id == s[i].id;
                assert(s.drop_last()[k] == s[k]);
            }
        }
        assert(store_map(s).remove(s[i].id) =~= store_map(s.drop_last()));
    } else {
        lemma_distinct_drop_last(s);
        lemma_store_map_remove(s.drop_last(), i);
        assert(s.drop_last()[i] == s[i]);
        assert(s.remove(i).len() == s.len() - 1);
        assert(s.remove(i).drop_last() =~= s.drop_last().remove(i));
        assert(s.remove(i).last() == s[s.len() - 1]);
        assert(store_map(s.remove(i)) == store_map(s.drop_last().remove(i)).insert(
            s.last().id,
            s.last(),
        ));
        assert(s[i].id != s.last().id);
        assert(store_map(s.drop_last()).remove(s[i].id).insert(s.last().id, s.last())
            =~= store_map(s.drop_last()).insert(s.last().id, s.last()).remove(s[i].id));
    }
}

/// Law: a record written under an id and then looked up under that id comes
/// back exactly as written, whatever the store held before.
pub proof fn lemma_get_after_add(m: Map<int, UserView>, u: UserView)
    ensures
        m.insert(u.id, u).dom().contains(u.id),
        m.insert(u.id, u)[u.id] == u,
{
}

/// Law: once an id is deleted, a lookup of that id finds nothing, whatever
/// the store held before.
pub proof fn lemma_get_after_delete(m: Map<int, UserView>, id: int)
    ensures
        !m.remove(id).dom().contains(id),
{
}

/// The in-memory store: rows in insertion order, plus the next id to assign.
pub struct UserStore {
    users: Vec<User>,
    next_id: i32,
}

impl View for UserStore {
    type V = Map<int, UserView>;

    open spec fn view(&self) -> Map<int, UserView> {
        store_map(self.records())
    }
}

impl UserStore {
    /// The stored rows, in insertion order.
    pub closed spec fn records(&self) -> Seq<UserView> {
        self.users@.map_values(|u: User| u@)
    }

    /// The next id the store will assign.
    pub closed spec fn next_id_spec(&self) -> int {
        self.next_id as int
    }

    /// Well-formedness: ids are pairwise distinct, positive, and below the
    /// next id to assign — so a fresh id is novel.
    pub open spec fn wf(&self) -> bool {
        &&& 1 <= self.next_id_spec()
        &&& distinct_ids(self.records())
        &&& forall|i: int|
            0 <= i < self.records().len() ==> 0 < (#[trigger] self.records()[i]).id
                < self.next_id_spec()
    }

    /// An empty store; ids start at 1, as a serial column does.
    pub fn new() -> (s: UserStore)
        ensures
            s.wf(),
            s@ == Map::<int, UserView>::empty(),
            s.next_id_spec() == 1,
    {
        let s = UserStore { users: Vec::new(), next_id: 1 };
        proof {
            assert(s.records() =~= Seq::<UserView>::empty());
        }
        s
    }

    /// Whether the store can still assign a fresh id, the one precondition
    /// of an insertion.
    pub fn can_assign_id(&self) -> (r: bool)
        ensures
            r == (self.next_id_spec() < i32::MAX as int),
    {
        self.next_id < i32::MAX
    }

    /// Every stored row, cloned out in insertion order; one row per stored id.
    pub fn get_all_users(&self) -> (r: Vec<User>)
        requires
            self.wf(),
        ensures
            r@.map_values(|u: User| u@) == self.records(),
            r@.len() == self@.dom().len(),
    {
        let mut out: Vec<User> = Vec::new();
        let mut k: usize = 0;
        while k < self.users.len()
            invariant
                k <= self.users.len(),
                out@.len() == k,
                forall|j: int| 0 <= j < k as int ==> (#[trigger] out@[j])@ == self.records()[j],
            decreases self.users.len() - k,
        {
            out.push(self.users[k].clone());
            k += 1;
        }
        proof {
            assert(out@.map_values(|u: User| u@) =~= self.records());
            lemma_store_map_len(self.records());
        }
        out
    }

    /// Looks a row up by id: the record last written under that id, or
    /// `NotFound` exactly when the store holds no such id.
    pub fn db_get_user_by_id(&self, user_id: i32) -> (r: Result<User, StoreError>)
        requires
            self.wf(),
        ensures
            self@.dom().contains(user_id as int) ==> (r matches Ok(u) && u@ == self@[
                user_id as int
            ]),
            !self@.dom().contains(user_id as int) ==> r == Err::<User, StoreError>(
                StoreError::NotFound,
            ),
    {
        let mut k: usize = 0;
        while k < self.users.len()
            invariant
                k <= self.users.len(),
                self.wf(),
                forall|j: int|
                    0 <= j < k as int ==> (#[trigger] self.records()[j]).id != user_id as int,
            decreases self.users.len() - k,
        {
            if self.users[k].id == user_id {
                let u = self.users[k].clone();
                proof {
                    lemma_store_map_index(self.records(), k as int);
                }
                return Ok(u);
            }
            k += 1;
        }
        proof {
            lemma_store_map_dom(self.records(), user_id as int);
        }
        Err(StoreError::NotFound)
    }

    /// Inserts a row. The store assigns the id — one it has never held, one
    /// more than any it assigned before — and stamps the row with the given
    /// server-chosen creation time; the client-supplied input carries no id
    /// and no timestamp. Returns the record as stored.
    pub fn db_add_user(&mut self, new_user: InputUser, created_at: i64) -> (r: User)
        requires
            old(self).wf(),
            old(self).next_id_spec() < i32::MAX as int,
        ensures
            final(self).wf(),
            r.id as int == old(self).next_id_spec(),
            !old(self)@.dom().contains(r.id as int),
            r.name@ == new_user.name@,
            r.email@ == new_user.email@,
            r.created_at == created_at,
            final(self)@ == old(self)@.insert(r.id as int, r@),
            final(self)@.dom().contains(r.id as int) && final(self)@[r.id as int] == r@,
            final(self).next_id_spec() == old(self).next_id_spec() + 1,
    {
        let row = NewUser {
            name: new_user.name.as_str(),
            email: new_user.email.as_str(),
            created_at,
        };
        let stored = User {
            id: self.next_id,
            name: String::from_str(row.name),
            email: String::from_str(row.email),
            created_at: row.created_at,
        };
        let r = stored.clone();
        proof {
            lemma_store_map_dom(self.records(), self.next_id as int);
        }
        self.users.push(stored);
        self.next_id = self.next_id + 1;
        proof {
            assert(self.records() =~= old(self).records().push(r@));
            assert(self.records().drop_last() =~= old(self).records());
            assert(self.records().last() == r@);
            assert forall|i: int, j: int|
                #![trigger self.records()[i], self.records()[j]]
                0 <= i < j < self.records().len() implies self.records()[i].id
                != self.records()[j].id by {
                if j < self.records().len() - 1 {
                    assert(self.records()[i] == old(self).records()[i]);
                    assert(self.records()[j] == old(self).records()[j]);
                } else {
                    assert(self.records()[i] == old(self).records()[i]);
                }
            }
            assert forall|i: int|
                0 <= i < self.records().len() implies 0 < (#[trigger] self.records()[i]).id
                < self.next_id_spec() by {
                if i < self.records().len() - 1 {
                    assert(self.records()[i] == old(self).records()[i]);
                }
            }
            assert(self@ =~= old(self)@.insert(r.id as int, r@));
        }
        r
    }

    /// Deletes the row with the given id, or reports `NotFound`, leaving the
    /// store unchanged, exactly when no row matches. The next id to assign
    /// does not move back: a deleted id is never assigned again.
    pub fn db_delete_user(&mut self, user_id: i32) -> (r: Result<(), StoreError>)
        requires
            old(self).wf(),
        ensures
            final(self).wf(),
            final(self).next_id_spec() == old(self).next_id_spec(),
            old(self)@.dom().contains(user_id as int) ==> (r matches Ok(u) && final(self)@ == old(
                self,
            )@.remove(user_id as int)),
            !old(self)@.dom().contains(user_id as int) ==> r == Err::<(), StoreError>(
                StoreError::NotFound,
            ) && *final(self) == *old(self),
            !final(self)@.dom().contains(user_id as int),
    {
        let mut k: usize = 0;
        while k < self.users.len()
            invariant
                k <= self.users.len(),
                *self == *old(self),
                self.wf(),
                forall|j: int|
                    0 <= j < k as int ==> (#[trigger] self.records()[j]).id != user_id as int,
            decreases self.users.len() - k,
        {
            if self.users[k].id == user_id {
                proof {
                    lemma_store_map_index(self.records(), k as int);
                    lemma_store_map_remove(self.records(), k as int);
                    lemma_distinct_remove(self.records(), k as int);
                    self.records().remove_ensures(k as int);
                }
                self.users.remove(k);
                proof {
                    assert(self.records() =~= old(self).records().remove(k as int));
                    assert forall|i: int|
                        0 <= i < self.records().len() implies 0 < (
                    #[trigger] self.records()[i]).id < self.next_id as int by {
                        if i < k as int {
                            assert(self.records()[i] == old(self).records()[i]);
                        } else {
                            assert(self.records()[i] == old(self).records()[i + 1]);
                        }
                    }
                }
                return Ok(());
            }
            k += 1;
        }
        proof {
            lemma_store_map_dom(self.records(), user_id as int);
        }
        Err(StoreError::NotFound)
    }
}

} // verus!
