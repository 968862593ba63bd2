//! Document-store record identifiers: a 12-byte value addressed as a
//! 24-character hexadecimal string. The library holds the identifier as
//! that hex string, validated on entry; the store's native identifier
//! type is consulted only to generate a fresh value.

use vstd::prelude::*;

verus! {

/// A hexadecimal digit, upper or lower case.
pub open spec fn is_hex_digit(c: char) -> bool {
    ('0' <= c && c <= '9') || ('a' <= c && c <= 'f') || ('A' <= c && c <= 'F')
}

/// A well-formed document identifier string: exactly 24 hexadecimal
/// digits, the hex form of a 12-byte identifier.
pub open spec fn valid_object_id(s: Seq<char>) -> bool {
    &&& s.len() == 24
    &&& forall|i: int| 0 <= i < s.len() ==> #[trigger] is_hex_digit(s[i])
}

/// Relies on `mongodb::bson::oid::ObjectId`, the store's native
/// 12-byte identifier, declared opaquely; the library reads it only
/// through its hex form.
#[verifier::external_type_specification]
#[verifier::external_body]
pub struct ExObjectId(mongodb::bson::oid::ObjectId);

/// Relies on `mongodb::bson::oid::ObjectId::new`: the value is built from
/// the current time, a random process id and a counter, so nothing is
/// promised of it.
#[verifier::external_body]
fn object_id_new() -> mongodb::bson::oid::ObjectId {
    mongodb::bson::oid::ObjectId::new()
}

/// Relies on `mongodb::bson::oid::ObjectId::to_hex`: the hex encoding of
/// the identifier's 12 bytes, hence 24 hexadecimal digits.
#[verifier::external_body]
fn object_id_to_hex(o: &mongodb::bson::oid::ObjectId) -> (r: String)
    ensures
        valid_object_id(r@),
{
    (*o).to_hex()
}

/// A validated document identifier, held as its 24-digit hex string.
#[derive(Debug)]
pub struct DocId {
    hex: String,
}

impl View for DocId {
    type V = Seq<char>;

    closed spec fn view(&self) -> Seq<char> {
        self.hex@
    }
}

impl DocId {
    /// Parses an identifier string, accepting exactly the strings the
    /// document store's native parser accepts: 24 hexadecimal digits.
    pub fn parse(s: &str) -> (r: Option<DocId>)
        ensures
            r is Some <==> valid_object_id(s@),
            r matches Some(d) ==> d@ == s@,
    {
        let len = s.unicode_len();
        if len != 24 {
            return None;
        }
        let mut i: usize = 0;
        while i < 24
            invariant
                i <= 24,
                s@.len() == 24,
                forall|j: int| 0 <= j < i ==> #[trigger] is_hex_digit(s@[j]),
            decreases 24 - i,
        {
            let c = s.get_char(i);
            if !(('0' <= c && c <= '9') || ('a' <= c && c <= 'f') || ('A' <= c && c <= 'F')) {
                proof {
                    assert(!is_hex_digit(s@[i as int]));
                }
                return None;
            }
            i = i + 1;
        }
        Some(DocId { hex: s.to_owned() })
    }

    /// Generates a fresh identifier from the store's native generator.
    /// The value depends on the clock and on randomness, so only its
    /// well-formedness is stated.
    pub fn generate() -> (d: DocId)
        ensures
            valid_object_id(d@),
    {
        let o = object_id_new();
        let h = object_id_to_hex(&o);
        DocId { hex: h }
    }

    /// The identifier as its hex string.
    pub fn as_str(&self) -> (r: &str)
        ensures
            r@ == self@,
    {
        self.hex.as_str()
    }

    /// Whether this identifier is written by the given string.
    pub fn matches_str(&self, s: &str) -> (b: bool)
        ensures
            b == (self@ == s@),
    {
        self.hex == s.to_owned()
    }

    /// A copy of this identifier.
    pub fn duplicate(&self) -> (d: DocId)
        ensures
            d@ == self@,
    {
        DocId { hex: self.hex.clone() }
    }
}

} // verus!
