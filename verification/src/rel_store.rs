//! The relational persistence gateway: create, list, update and delete
//! over user records keyed by a store-assigned integer surrogate key,
//! assigned serially from 1. The contract shape mirrors the document
//! gateway; a key is an integer, so the malformed-identifier case is
//! rejected before it can reach this store.

use vstd::prelude::*;
use vstd::pervasive::VecAdditionalExecFns;

use crate::errors::AppError;
use crate::models::User;
use crate::models::UserData;

verus! {

/// Whether some record in the store carries the given key.
pub open spec fn rel_contains_id(s: Seq<UserData>, id: int) -> bool {
    exists|i: int| 0 <= i < s.len() && s[i].id == Some(id)
}

/// The index of the record carrying the given key.
pub open spec fn rel_index_of_id(s: Seq<UserData>, id: int) -> int {
    choose|i: int| 0 <= i < s.len() && s[i].id == Some(id)
}

/// No two records carry the same key.
pub open spec fn rel_unique_ids(s: Seq<UserData>) -> bool {
    forall|i: int, j: int| 0 <= i < j < s.len() ==> s[i].id != s[j].id
}

/// Every record carries a key, and keys are positive.
pub open spec fn rel_all_ids_assigned(s: Seq<UserData>) -> bool {
    forall|i: int| 0 <= i < s.len() ==> {
        &&& (#[trigger] s[i]).id is Some
        &&& s[i].id->0 >= 1
    }
}

/// The store contents after an update of the record keyed `id`.
pub open spec fn rel_spec_update(
    s: Seq<UserData>,
    id: int,
    name: Seq<char>,
    email: Seq<char>,
) -> Seq<UserData> {
    s.update(rel_index_of_id(s, id), UserData { id: Some(id), name, email })
}

/// The store contents after a delete of the record keyed `id`.
pub open spec fn rel_spec_delete(s: Seq<UserData>, id: int) -> Seq<UserData> {
    s.remove(rel_index_of_id(s, id))
}

/// The relational store, holding the user records of one table.
pub struct RelStore {
    users: Vec<User>,
    next_id: i32,
}

impl View for RelStore {
    type V = Seq<UserData>;

    closed spec fn view(&self) -> Seq<UserData> {
        self.users@.map_values(|u: User| u@)
    }
}

impl RelStore {
    /// The key the store will assign to the next created record.
    pub closed spec fn spec_next_id(&self) -> int {
        self.next_id as int
    }

    /// Every stored key lies below the next key to be assigned.
    pub closed spec fn ids_bounded(&self) -> bool {
        forall|i: int| 0 <= i < self@.len() ==> (#[trigger] self@[i]).id->0 < self.next_id
    }

    /// Well-formedness: keys are assigned, positive, unique, and below
    /// the next key to be assigned.
    pub open spec fn wf(&self) -> bool {
        &&& rel_all_ids_assigned(self@)
        &&& rel_unique_ids(self@)
        &&& self.ids_bounded()
        &&& self.spec_next_id() >= 1
    }

    /// An empty store; serial keys start at 1.
    pub fn new() -> (s: RelStore)
        ensures
            s.wf(),
            s@ == Seq::<UserData>::empty(),
            s.spec_next_id() == 1,
    {
        let s = RelStore { users: Vec::new(), next_id: 1 };
        proof {
            assert(s@ =~= Seq::<UserData>::empty());
        }
        s
    }

    /// The index of the record keyed `id`, if any.
    fn find_index(&self, id: i32) -> (r: Option<usize>)
        ensures
            r matches Some(i) ==> (i < self@.len() && self@[i as int].id == Some(id as int)),
            r is None ==> !rel_contains_id(self@, id as int),
    {
        let mut k: usize = 0;
        while k < self.users.len()
            invariant
                k <= self.users@.len(),
                self@.len() == self.users@.len(),
                forall|j: int| 0 <= j < k ==> #[trigger] self@[j].id != Some(id as int),
            decreases self.users@.len() - k,
        {
            match self.users[k].id {
                Some(v) => {
                    if v == id {
                        return Some(k);
                    }
                },
                None => {},
            }
            k = k + 1;
        }
        None
    }

    /// Create: persists the record under the next serial key and
    /// returns its canonical stored form; the key is fresh and the
    /// store grows by exactly the returned record.
    pub fn add_user(&mut self, user: User) -> (rec: User)
        requires
            old(self).wf(),
            old(self).spec_next_id() < i32::MAX,
        ensures
            final(self).wf(),
            rec@.id == Some(old(self).spec_next_id()),
            rec@.name == user@.name,
            rec@.email == user@.email,
            !rel_contains_id(old(self)@, old(self).spec_next_id()),
            final(self)@ == old(self)@.push(rec@),
            final(self).spec_next_id() == old(self).spec_next_id() + 1,
    {
        let id = self.next_id;
        let rec = User { id: Some(id), name: user.name.clone(), email: user.email.clone() };
        let stored = rec.duplicate();
        self.users.push(stored);
        self.next_id = id + 1;
        proof {
            assert(final(self)@ =~= old(self)@.push(rec@));
        }
        rec
    }

    /// List: the full store contents, record for record.
    pub fn get_users(&self) -> (users: Vec<User>)
        ensures
            users@.len() == self@.len(),
            forall|i: int| 0 <= i < self@.len() ==> (#[trigger] users@[i])@ == self@[i],
    {
        let mut users: Vec<User> = Vec::new();
        let mut k: usize = 0;
        while k < self.users.len()
            invariant
                k <= self.users@.len(),
                self@.len() == self.users@.len(),
                users@.len() == k,
                forall|i: int| 0 <= i < k ==> (#[trigger] users@[i])@ == self@[i],
            decreases self.users@.len() - k,
        {
            users.push(self.users[k].duplicate());
            k = k + 1;
        }
        users
    }

    /// Update: a key with no matching record is a `NotFound` without
    /// mutation; otherwise the matching record takes the given name and
    /// email and its canonical stored form is returned.
    pub fn update_user(&mut self, id: i32, user: User) -> (r: Result<User, AppError>)
        requires
            old(self).wf(),
        ensures
            final(self).wf(),
            final(self).spec_next_id() == old(self).spec_next_id(),
            !rel_contains_id(old(self)@, id as int) ==> {
                &&& r matches Err(e)
                &&& e is NotFound
                &&& e.spec_message() == "User not found"@
                &&& final(self)@ == old(self)@
            },
            rel_contains_id(old(self)@, id as int) ==> {
                &&& r matches Ok(rec)
                &&& rec@.id == Some(id as int)
                &&& rec@.name == user@.name
                &&& rec@.email == user@.email
                &&& final(self)@ == rel_spec_update(old(self)@, id as int, user@.name, user@.email)
            },
    {
        let idx = match self.find_index(id) {
            Some(i) => i,
            None => {
                return Err(AppError::NotFound("User not found".to_owned()));
            },
        };
        let rec = User { id: Some(id), name: user.name.clone(), email: user.email.clone() };
        let stored = rec.duplicate();
        proof {
            let j = rel_index_of_id(old(self)@, id as int);
            assert(0 <= j < old(self)@.len() && old(self)@[j].id == Some(id as int));
            assert(j == idx);
        }
        self.users.set(idx, stored);
        proof {
            assert(final(self)@ =~= rel_spec_update(old(self)@, id as int, user@.name, user@.email));
        }
        Ok(rec)
    }

    /// Delete: a key with no matching record is a `NotFound` without
    /// mutation; otherwise exactly the matching record is removed, so
    /// the key no longer addresses any record.
    pub fn delete_user(&mut self, id: i32) -> (r: Result<(), AppError>)
        requires
            old(self).wf(),
        ensures
            final(self).wf(),
            final(self).spec_next_id() == old(self).spec_next_id(),
            !rel_contains_id(old(self)@, id as int) ==> {
                &&& r matches Err(e)
                &&& e is NotFound
                &&& e.spec_message() == "User not found"@
                &&& final(self)@ == old(self)@
            },
            rel_contains_id(old(self)@, id as int) ==> {
                &&& r is Ok
                &&& final(self)@ == rel_spec_delete(old(self)@, id as int)
                &&& !rel_contains_id(final(self)@, id as int)
            },
    {
        let idx = match self.find_index(id) {
            Some(i) => i,
            None => {
                return Err(AppError::NotFound("User not found".to_owned()));
            },
        };
        proof {
            let j = rel_index_of_id(old(self)@, id as int);
            assert(0 <= j < old(self)@.len() && old(self)@[j].id == Some(id as int));
            assert(j == idx);
        }
        self.users.remove(idx);
        proof {
            assert(final(self)@ =~= rel_spec_delete(old(self)@, id as int));
            old(self)@.remove_ensures(idx as int);
            lemma_rel_deleted_id_absent(old(self)@, id as int);
        }
        Ok(())
    }
}

/// Law: a freshly created record is included in a listing taken
/// afterwards — create appends the record, and list reproduces the
/// contents, so the listing contains that exact record.
pub proof fn lemma_rel_created_record_listed(s: Seq<UserData>, rec: UserData)
    ensures
        s.push(rec).contains(rec),
        rec.id matches Some(v) ==> rel_contains_id(s.push(rec), v),
{
    assert(s.push(rec)[s.len() as int] == rec);
}

/// Law: after an update of a key, the record that key addresses carries
/// exactly the updated name and email — a re-read never observes the
/// pre-update values.
pub proof fn lemma_rel_update_then_reread(s: Seq<UserData>, id: int, name: Seq<char>, email: Seq<char>)
    requires
        rel_unique_ids(s),
        rel_contains_id(s, id),
    ensures
        rel_contains_id(rel_spec_update(s, id, name, email), id),
        rel_spec_update(s, id, name, email)[rel_index_of_id(rel_spec_update(s, id, name, email), id)]
            == (UserData { id: Some(id), name, email }),
{
    let j = rel_index_of_id(s, id);
    assert(0 <= j < s.len() && s[j].id == Some(id));
    let s2 = rel_spec_update(s, id, name, email);
    assert(s2[j] == (UserData { id: Some(id), name, email }));
    let k = rel_index_of_id(s2, id);
    assert(0 <= k < s2.len() && s2[k].id == Some(id));
    if k != j {
        assert(s[k].id == Some(id));
        assert(false);
    }
}

/// Law: after a delete of a key, no record carries it; by the update
/// and delete contracts, a further update or delete of the same key
/// therefore reports `NotFound` rather than mutating.
pub proof fn lemma_rel_deleted_id_absent(s: Seq<UserData>, id: int)
    requires
        rel_unique_ids(s),
        rel_contains_id(s, id),
    ensures
        !rel_contains_id(rel_spec_delete(s, id), id),
{
    let j = rel_index_of_id(s, id);
    assert(0 <= j < s.len() && s[j].id == Some(id));
    let s2 = s.remove(j);
    s.remove_ensures(j);
    assert forall|k: int| 0 <= k < s2.len() implies #[trigger] s2[k].id != Some(id) by {
        if k < j {
            assert(s2[k] == s[k]);
        } else {
            assert(s2[k] == s[k + 1]);
        }
    }
}

} // verus!
