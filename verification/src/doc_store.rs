//! The document-store persistence gateway: create, list, update and
//! delete over user records addressed by document identifiers. The
//! store contents are modelled as the sequence of record views; every
//! operation's contract says exactly which inputs succeed, which error
//! kind each failing input yields, and how the contents change.

use vstd::prelude::*;
use vstd::pervasive::VecAdditionalExecFns;

use crate::doc_id::DocId;
use crate::doc_id::valid_object_id;
use crate::errors::AppError;
use crate::gateway::check_object_id;
use crate::models::UserMongo;
use crate::models::UserMongoData;

verus! {

/// Whether some record in the store carries the given identifier.
pub open spec fn contains_id(s: Seq<UserMongoData>, id: Seq<char>) -> bool {
    exists|i: int| 0 <= i < s.len() && s[i].id == Some(id)
}

/// The index of the record carrying the given identifier.
pub open spec fn index_of_id(s: Seq<UserMongoData>, id: Seq<char>) -> int {
    choose|i: int| 0 <= i < s.len() && s[i].id == Some(id)
}

/// No two records carry the same identifier.
pub open spec fn unique_ids(s: Seq<UserMongoData>) -> bool {
    forall|i: int, j: int| 0 <= i < j < s.len() ==> s[i].id != s[j].id
}

/// Every record carries a well-formed identifier.
pub open spec fn all_ids_assigned(s: Seq<UserMongoData>) -> bool {
    forall|i: int| 0 <= i < s.len() ==> {
        &&& (#[trigger] s[i]).id is Some
        &&& valid_object_id(s[i].id->0)
    }
}

/// The store contents after an update of the record carrying `id`.
pub open spec fn spec_update(
    s: Seq<UserMongoData>,
    id: Seq<char>,
    name: Seq<char>,
    email: Seq<char>,
) -> Seq<UserMongoData> {
    s.update(index_of_id(s, id), UserMongoData { id: Some(id), name, email })
}

/// The store contents after a delete of the record carrying `id`.
pub open spec fn spec_delete(s: Seq<UserMongoData>, id: Seq<char>) -> Seq<UserMongoData> {
    s.remove(index_of_id(s, id))
}

/// The document store, holding the user records of one collection.
pub struct DocStore {
    users: Vec<UserMongo>,
}

impl View for DocStore {
    type V = Seq<UserMongoData>;

    closed spec fn view(&self) -> Seq<UserMongoData> {
        self.users@.map_values(|u: UserMongo| u@)
    }
}

impl DocStore {
    /// Well-formedness: identifiers are assigned, valid and unique.
    pub open spec fn wf(&self) -> bool {
        &&& all_ids_assigned(self@)
        &&& unique_ids(self@)
    }

    /// An empty store.
    pub fn new() -> (s: DocStore)
        ensures
            s.wf(),
            s@ == Seq::<UserMongoData>::empty(),
    {
        let s = DocStore { users: Vec::new() };
        proof {
            assert(s@ =~= Seq::<UserMongoData>::empty());
        }
        s
    }

    /// The index of the record carrying `id`, if any.
    fn find_index(&self, id: &str) -> (r: Option<usize>)
        ensures
            r matches Some(i) ==> (i < self@.len() && self@[i as int].id == Some(id@)),
            r is None ==> !contains_id(self@, id@),
    {
        let mut k: usize = 0;
        while k < self.users.len()
            invariant
                k <= self.users@.len(),
                self@.len() == self.users@.len(),
                forall|j: int| 0 <= j < k ==> #[trigger] self@[j].id != Some(id@),
            decreases self.users@.len() - k,
        {
            match &self.users[k].id {
                Some(d) => {
                    if d.matches_str(id) {
                        return Some(k);
                    }
                },
                None => {},
            }
            k = k + 1;
        }
        None
    }

    /// Persists a record under a caller-supplied fresh identifier: the
    /// stored and returned record carries that identifier and the
    /// input's name and email, and the store grows by exactly it.
    pub fn add_user_with_id(&mut self, id: DocId, user: UserMongo) -> (rec: UserMongo)
        requires
            old(self).wf(),
            valid_object_id(id@),
            !contains_id(old(self)@, id@),
        ensures
            final(self).wf(),
            rec@.id == Some(id@),
            rec@.name == user@.name,
            rec@.email == user@.email,
            final(self)@ == old(self)@.push(rec@),
    {
        let rec = UserMongo {
            id: Some(id.duplicate()),
            name: user.name.clone(),
            email: user.email.clone(),
        };
        let stored = rec.duplicate();
        self.users.push(stored);
        proof {
            assert(final(self)@ =~= old(self)@.push(rec@));
        }
        rec
    }

    /// Create: generates an identifier, persists the record and returns
    /// its canonical stored form. The generated identifier is
    /// well-formed and fresh on success; the one failure is a generated
    /// identifier colliding with a stored one, reported as the database
    /// kind with the store unchanged — so on an empty store, create
    /// always succeeds.
    pub fn add_user(&mut self, user: UserMongo) -> (r: Result<UserMongo, AppError>)
        requires
            old(self).wf(),
        ensures
            final(self).wf(),
            r matches Ok(rec) ==> {
                &&& rec@.id is Some
                &&& valid_object_id(rec@.id->0)
                &&& rec@.name == user@.name
                &&& rec@.email == user@.email
                &&& !contains_id(old(self)@, rec@.id->0)
                &&& final(self)@ == old(self)@.push(rec@)
            },
            r matches Err(e) ==> {
                &&& e is DatabaseError
                &&& e.spec_message() == "Generated identifier already in use"@
                &&& final(self)@ == old(self)@
                &&& old(self)@.len() > 0
            },
    {
        let id = DocId::generate();
        match self.find_index(id.as_str()) {
            Some(_) => Err(AppError::DatabaseError("Generated identifier already in use".to_owned())),
            None => Ok(self.add_user_with_id(id, user)),
        }
    }

    /// List: the full store contents, record for record.
    pub fn get_users(&self) -> (users: Vec<UserMongo>)
        ensures
            users@.len() == self@.len(),
            forall|i: int| 0 <= i < self@.len() ==> (#[trigger] users@[i])@ == self@[i],
    {
        let mut users: Vec<UserMongo> = Vec::new();
        let mut k: usize = 0;
        while k < self.users.len()
            invariant
                k <= self.users@.len(),
                self@.len() == self.users@.len(),
                users@.len() == k,
                forall|i: int| 0 <= i < k ==> (#[trigger] users@[i])@ == self@[i],
            decreases self.users@.len() - k,
        {
            users.push(self.users[k].duplicate());
            k = k + 1;
        }
        users
    }

    /// Update: a malformed identifier is a `BadRequest` and a
    /// well-formed one with no matching record a `NotFound`, both
    /// without mutation; otherwise the matching record takes the given
    /// name and email and its canonical stored form is returned.
    pub fn update_user(&mut self, id: &str, user: UserMongo) -> (r: Result<UserMongo, AppError>)
        requires
            old(self).wf(),
        ensures
            final(self).wf(),
            !valid_object_id(id@) ==> {
                &&& r matches Err(e)
                &&& e is BadRequest
                &&& e.spec_message() == "Invalid ID format"@
                &&& final(self)@ == old(self)@
            },
            valid_object_id(id@) && !contains_id(old(self)@, id@) ==> {
                &&& r matches Err(e)
                &&& e is NotFound
                &&& e.spec_message() == "User not found"@
                &&& final(self)@ == old(self)@
            },
            valid_object_id(id@) && contains_id(old(self)@, id@) ==> {
                &&& r matches Ok(rec)
                &&& rec@.id == Some(id@)
                &&& rec@.name == user@.name
                &&& rec@.email == user@.email
                &&& final(self)@ == spec_update(old(self)@, id@, user@.name, user@.email)
            },
    {
        let did = match check_object_id(id) {
            Ok(d) => d,
            Err(e) => {
                return Err(e);
            },
        };
        let idx = match self.find_index(id) {
            Some(i) => i,
            None => {
                return Err(AppError::NotFound("User not found".to_owned()));
            },
        };
        let rec = UserMongo {
            id: Some(did),
            name: user.name.clone(),
            email: user.email.clone(),
        };
        let stored = rec.duplicate();
        proof {
            let j = index_of_id(old(self)@, id@);
            assert(0 <= j < old(self)@.len() && old(self)@[j].id == Some(id@));
            assert(j == idx);
        }
        self.users.set(idx, stored);
        proof {
            assert(final(self)@ =~= spec_update(old(self)@, id@, user@.name, user@.email));
        }
        Ok(rec)
    }

    /// Delete: a malformed identifier is a `BadRequest` and a
    /// well-formed one with no matching record a `NotFound`, both
    /// without mutation; otherwise exactly the matching record is
    /// removed, so the identifier no longer addresses any record.
    pub fn delete_user(&mut self, id: &str) -> (r: Result<(), AppError>)
        requires
            old(self).wf(),
        ensures
            final(self).wf(),
            !valid_object_id(id@) ==> {
                &&& r matches Err(e)
                &&& e is BadRequest
                &&& e.spec_message() == "Invalid ID format"@
                &&& final(self)@ == old(self)@
            },
            valid_object_id(id@) && !contains_id(old(self)@, id@) ==> {
                &&& r matches Err(e)
                &&& e is NotFound
                &&& e.spec_message() == "User not found"@
                &&& final(self)@ == old(self)@
            },
            valid_object_id(id@) && contains_id(old(self)@, id@) ==> {
                &&& r is Ok
                &&& final(self)@ == spec_delete(old(self)@, id@)
                &&& !contains_id(final(self)@, id@)
            },
    {
        match check_object_id(id) {
            Ok(_) => {},
            Err(e) => {
                return Err(e);
            },
        }
        let idx = match self.find_index(id) {
            Some(i) => i,
            None => {
                return Err(AppError::NotFound("User not found".to_owned()));
            },
        };
        proof {
            let j = index_of_id(old(self)@, id@);
            assert(0 <= j < old(self)@.len() && old(self)@[j].id == Some(id@));
            assert(j == idx);
        }
        self.users.remove(idx);
        proof {
            assert(final(self)@ =~= spec_delete(old(self)@, id@));
            lemma_deleted_id_absent(old(self)@, id@);
        }
        Ok(())
    }
}

/// Law: a freshly created record is included in a listing taken
/// afterwards — create appends the record, and list reproduces the
/// contents, so the listing contains that exact record.
pub proof fn lemma_created_record_listed(s: Seq<UserMongoData>, rec: UserMongoData)
    ensures
        s.push(rec).contains(rec),
        rec.id matches Some(v) ==> contains_id(s.push(rec), v),
{
    assert(s.push(rec)[s.len() as int] == rec);
}

/// Law: after an update of an identifier, the record that identifier
/// addresses carries exactly the updated name and email — a re-read
/// never observes the pre-update values.
pub proof fn lemma_update_then_reread(
    s: Seq<UserMongoData>,
    id: Seq<char>,
    name: Seq<char>,
    email: Seq<char>,
)
    requires
        unique_ids(s),
        contains_id(s, id),
    ensures
        contains_id(spec_update(s, id, name, email), id),
        spec_update(s, id, name, email)[index_of_id(spec_update(s, id, name, email), id)]
            == (UserMongoData { id: Some(id), name, email }),
{
    let j = index_of_id(s, id);
    assert(0 <= j < s.len() && s[j].id == Some(id));
    let s2 = spec_update(s, id, name, email);
    assert(s2[j] == (UserMongoData { id: Some(id), name, email }));
    let k = index_of_id(s2, id);
    assert(0 <= k < s2.len() && s2[k].id == Some(id));
    if k != j {
        assert(s[k].id == Some(id));
        assert(false);
    }
}

/// Law: after a delete of an identifier, no record carries it; by the
/// update and delete contracts, a further update or delete of the same
/// identifier therefore reports `NotFound` rather than mutating.
pub proof fn lemma_deleted_id_absent(s: Seq<UserMongoData>, id: Seq<char>)
    requires
        unique_ids(s),
        contains_id(s, id),
    ensures
        !contains_id(spec_delete(s, id), id),
{
    let j = index_of_id(s, id);
    assert(0 <= j < s.len() && s[j].id == Some(id));
    let s2 = s.remove(j);
    s.remove_ensures(j);
    assert forall|k: int| 0 <= k < s2.len() implies #[trigger] s2[k].id != Some(id) by {
        if k < j {
            assert(s2[k] == s[k]);
        } else {
            assert(s2[k] == s[k + 1]);
        }
    }
}

} // verus!
