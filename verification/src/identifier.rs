use vstd::prelude::*;

verus! {

use crate::errors::ValidationError;
use crate::time::Timestamp;

/// What `uuid::Uuid::new_v3` returns in the X.500 namespace, as
/// canonical text, when fed the name's bytes followed by the date
/// text's bytes: a function of the two texts alone.
pub uninterp spec fn uuid_v3_of(name: Seq<char>, date_text: Seq<char>) -> Seq<char>;

/// What chrono's `to_rfc3339` returns for a UTC timestamp with the
/// given seconds and nanoseconds: a function of the timestamp alone.
pub uninterp spec fn rfc3339_of(secs: int, nsecs: int) -> Seq<char>;

/// What `uuid::Uuid::parse_str` followed by `to_string` returns:
/// `Some` of the canonical text when the input is valid UUID text in
/// any accepted form, `None` otherwise.
pub uninterp spec fn uuid_canon_of(s: Seq<char>) -> Option<Seq<char>>;

/// Whether a character is a lowercase hexadecimal digit.
pub open spec fn is_lower_hex_digit(c: char) -> bool {
    (48 <= c as u32 <= 57) || (97 <= c as u32 <= 102)
}

/// Canonical UUID text: 36 characters, hyphens at positions 8, 13, 18
/// and 23, lowercase hexadecimal digits everywhere else.
pub open spec fn is_canonical_uuid(s: Seq<char>) -> bool {
    &&& s.len() == 36
    &&& forall|i: int|
        0 <= i < 36 ==> {
            if i == 8 || i == 13 || i == 18 || i == 23 {
                #[trigger] s[i] == '-'
            } else {
                is_lower_hex_digit(s[i])
            }
        }
}

/// The identifier text derived from a display name and a creation
/// time: the name-based UUID over the name and the RFC 3339 form of
/// the time.
pub open spec fn derived_uuid_text(name: Seq<char>, secs: int, nsecs: int) -> Seq<char> {
    uuid_v3_of(name, rfc3339_of(secs, nsecs))
}

/// Relies on chrono's `DateTime::from_timestamp` and `to_rfc3339`:
/// the RFC 3339 text of a UTC timestamp is a function of its seconds
/// and nanoseconds alone. The well-formedness bound keeps the
/// timestamp inside chrono's representable range.
#[verifier::external_body]
fn rfc3339_utc(t: &Timestamp) -> (r: String)
    requires
        t.well_formed(),
    ensures
        r@ == rfc3339_of(t.secs as int, t.nsecs as int),
{
    chrono::DateTime::<chrono::Utc>::from_timestamp(t.secs, t.nsecs).unwrap().to_rfc3339()
}

/// Relies on `uuid::Uuid::new_v3` (a deterministic, name-based MD5
/// UUID) and on `uuid::Uuid::to_string` returning the canonical
/// lowercase hyphenated form.
#[verifier::external_body]
fn uuid_v3_from_name_and_date(name: &str, date_text: &str) -> (r: String)
    ensures
        r@ == uuid_v3_of(name@, date_text@),
        is_canonical_uuid(r@),
{
    let data = [name.as_bytes(), date_text.as_bytes()].concat();
    uuid::Uuid::new_v3(&uuid::Uuid::NAMESPACE_X500, &data).to_string()
}

/// The view of an optional string: its characters, when it is there.
pub open spec fn opt_text_view(r: Option<String>) -> Option<Seq<char>> {
    match r {
        Some(v) => Some(v@),
        None => None,
    }
}

/// Relies on `uuid::Uuid::parse_str` (accepts exactly well-formed UUID
/// text, the canonical form included) and `uuid::Uuid::to_string`
/// (returns the canonical lowercase hyphenated form, which reparses to
/// the same value).
#[verifier::external_body]
fn uuid_canonicalize(s: &str) -> (r: Option<String>)
    ensures
        opt_text_view(r) == uuid_canon_of(s@),
        opt_text_view(r) matches Some(c) ==> is_canonical_uuid(c),
        is_canonical_uuid(s@) ==> opt_text_view(r) == Some(s@),
{
    match uuid::Uuid::parse_str(s) {
        Ok(u) => Some(u.to_string()),
        Err(_) => None,
    }
}

/// A deterministic entity identifier, held as canonical UUID text.
///
/// It is either derived from a display name and a creation time — the
/// same inputs always give the same identifier — or parsed from
/// externally supplied UUID text. The stored text is always the
/// canonical lowercase hyphenated form.
#[derive(Debug, PartialEq, Eq, Hash)]
pub struct Uuid {
    text: String,
}

impl Clone for Uuid {
    /// The clone holds the same canonical text.
    fn clone(&self) -> (r: Self)
        ensures
            r@ == self@,
    {
        proof {
            use_type_invariant(self);
        }
        Uuid { text: self.text.clone() }
    }
}

impl View for Uuid {
    type V = Seq<char>;

    closed spec fn view(&self) -> Seq<char> {
        self.text@
    }
}

impl Uuid {
    /// The stored text is canonical UUID text.
    #[verifier::type_invariant]
    pub closed spec fn inv(self) -> bool {
        is_canonical_uuid(self.text@)
    }

    /// Derives the identifier for an entity with the given display
    /// name and creation time. Deterministic: equal inputs always
    /// yield the identical identifier.
    pub fn from_name_and_date(name: &str, creation_date: &Timestamp) -> (r: Uuid)
        requires
            creation_date.well_formed(),
        ensures
            r@ == derived_uuid_text(name@, creation_date.secs as int, creation_date.nsecs as int),
            is_canonical_uuid(r@),
    {
        let date_text = rfc3339_utc(creation_date);
        Uuid { text: uuid_v3_from_name_and_date(name, date_text.as_str()) }
    }

    /// Parses externally supplied identifier text, accepting only
    /// well-formed UUID text and storing its canonical form.
    pub fn parse(s: &str) -> (r: Result<Uuid, ValidationError>)
        ensures
            r is Ok <==> uuid_canon_of(s@) is Some,
            r matches Ok(u) ==> uuid_canon_of(s@) == Some(u@) && is_canonical_uuid(u@),
            r matches Err(e) ==> e == ValidationError::InvalidIdentifier,
            is_canonical_uuid(s@) ==> (r matches Ok(u) && u@ == s@),
    {
        match uuid_canonicalize(s) {
            Some(text) => Ok(Uuid { text }),
            None => Err(ValidationError::InvalidIdentifier),
        }
    }

    /// The canonical lowercase hyphenated text.
    pub fn as_str(&self) -> (r: &str)
        ensures
            r@ == self@,
            is_canonical_uuid(r@),
    {
        proof {
            use_type_invariant(self);
        }
        self.text.as_str()
    }

    /// The canonical text as an owned string.
    pub fn into_string(self) -> (r: String)
        ensures
            r@ == self@,
            is_canonical_uuid(r@),
    {
        proof {
            use_type_invariant(&self);
        }
        self.text
    }

    /// Parsing an identifier's own canonical text yields the identical
    /// identifier: canonicalization is a fixpoint on what this type
    /// stores.
    pub fn reparse(&self) -> (r: Uuid)
        ensures
            r@ == self@,
    {
        proof {
            use_type_invariant(self);
        }
        match Uuid::parse(self.as_str()) {
            Ok(u) => u,
            Err(_) => vstd::pervasive::unreached(),
        }
    }
}

/// Identifier derivation is deterministic: the same name and the same
/// creation time always yield the same identifier text.
pub proof fn lemma_derivation_deterministic(name: Seq<char>, t1: Timestamp, t2: Timestamp)
    requires
        t1 == t2,
    ensures
        derived_uuid_text(name, t1.secs as int, t1.nsecs as int) == derived_uuid_text(
            name,
            t2.secs as int,
            t2.nsecs as int,
        ),
{
}

} // verus!
