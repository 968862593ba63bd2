//! The user entity, in its relational and document variants, together
//! with the mathematical views the gateway contracts are stated over.

use vstd::prelude::*;

use crate::doc_id::DocId;

verus! {

/// The relational user record: an optional store-assigned integer key,
/// a name and an email address.
#[derive(Debug)]
pub struct User {
    pub id: Option<i32>,
    pub name: String,
    pub email: String,
}

/// Mathematical view of a relational user record.
#[verifier::ext_equal]
pub struct UserData {
    pub id: Option<int>,
    pub name: Seq<char>,
    pub email: Seq<char>,
}

impl View for User {
    type V = UserData;

    open spec fn view(&self) -> UserData {
        UserData {
            id: match self.id {
                Some(i) => Some(i as int),
                None => None,
            },
            name: self.name@,
            email: self.email@,
        }
    }
}

impl User {
    /// A field-for-field copy of the record.
    pub fn duplicate(&self) -> (r: User)
        ensures
            r@ == self@,
    {
        User { id: self.id, name: self.name.clone(), email: self.email.clone() }
    }
}

/// The document user record: an optional store-assigned identifier, a
/// name and an email address. Once generated, the identifier is
/// immutable and uniquely addresses the record.
#[derive(Debug)]
pub struct UserMongo {
    pub id: Option<DocId>,
    pub name: String,
    pub email: String,
}

/// Mathematical view of a document user record; the identifier appears
/// as its hex string.
#[verifier::ext_equal]
pub struct UserMongoData {
    pub id: Option<Seq<char>>,
    pub name: Seq<char>,
    pub email: Seq<char>,
}

impl View for UserMongo {
    type V = UserMongoData;

    open spec fn view(&self) -> UserMongoData {
        UserMongoData {
            id: match self.id {
                Some(d) => Some(d@),
                None => None,
            },
            name: self.name@,
            email: self.email@,
        }
    }
}

impl UserMongo {
    /// A field-for-field copy of the record.
    pub fn duplicate(&self) -> (r: UserMongo)
        ensures
            r@ == self@,
    {
        let id = match &self.id {
            Some(d) => Some(d.duplicate()),
            None => None,
        };
        UserMongo { id, name: self.name.clone(), email: self.email.clone() }
    }
}

/// Builds the relational records from plain row values, one record per
/// row, preserving the order and the fields of each row.
pub fn users_from_rows(rows: Vec<(i32, String, String)>) -> (users: Vec<User>)
    ensures
        users@.len() == rows@.len(),
        forall|i: int| 0 <= i < rows@.len() ==> {
            &&& (#[trigger] users@[i])@.id == Some(rows@[i].0 as int)
            &&& users@[i]@.name == rows@[i].1@
            &&& users@[i]@.email == rows@[i].2@
        },
{
    let mut users: Vec<User> = Vec::new();
    let mut k: usize = 0;
    while k < rows.len()
        invariant
            k <= rows@.len(),
            users@.len() == k,
            forall|i: int| 0 <= i < k ==> {
                &&& (#[trigger] users@[i])@.id == Some(rows@[i].0 as int)
                &&& users@[i]@.name == rows@[i].1@
                &&& users@[i]@.email == rows@[i].2@
            },
        decreases rows@.len() - k,
    {
        let (id, name, email) = (rows[k].0, rows[k].1.clone(), rows[k].2.clone());
        users.push(User { id: Some(id), name, email });
        k = k + 1;
    }
    users
}

} // verus!
