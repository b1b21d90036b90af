use vstd::prelude::*;

verus! {

use crate::errors::ValidationError;
use vstd::utf8::is_ascii_chars;

/// What `str::to_lowercase` returns: the Unicode lowercase folding of
/// the characters, a function of the input text alone.
pub uninterp spec fn lower_of(s: Seq<char>) -> Seq<char>;

/// Whether a character is an ASCII uppercase letter.
pub open spec fn is_ascii_upper(c: char) -> bool {
    65 <= c as u32 <= 90
}

/// Whether a character is an ASCII lowercase letter.
pub open spec fn is_ascii_lower(c: char) -> bool {
    97 <= c as u32 <= 122
}

/// ASCII case folding of one character: uppercase letters map to their
/// lowercase counterpart, everything else is unchanged.
pub open spec fn ascii_lower_char(c: char) -> char {
    if is_ascii_upper(c) {
        (((c as u32) + 32) as u32) as char
    } else {
        c
    }
}

/// ASCII case raising of one character: lowercase letters map to their
/// uppercase counterpart, everything else is unchanged.
pub open spec fn ascii_upper_char(c: char) -> char {
    if is_ascii_lower(c) {
        (((c as u32) - 32) as u32) as char
    } else {
        c
    }
}

/// Pointwise ASCII case folding of a character sequence.
pub open spec fn ascii_lower(s: Seq<char>) -> Seq<char> {
    s.map_values(|c: char| ascii_lower_char(c))
}

/// Pointwise ASCII case raising of a character sequence.
pub open spec fn ascii_upper(s: Seq<char>) -> Seq<char> {
    s.map_values(|c: char| ascii_upper_char(c))
}

/// Relies on `str::to_lowercase` of std: the result is a function of
/// the characters alone, and on ASCII input it is exactly the ASCII
/// case folding.
#[verifier::external_body]
fn lowercase(s: &str) -> (r: String)
    ensures
        r@ == lower_of(s@),
        is_ascii_chars(s@) ==> r@ == ascii_lower(s@),
{
    s.to_lowercase()
}

/// A case-insensitive login identifier with a canonical, lowercased
/// internal representation.
///
/// Two identifiers built from text that differs only in letter case
/// hold the same canonical form; equality, hashing and ordering all
/// work on that form.
#[derive(Clone, Debug, Default, PartialEq, Eq, PartialOrd, Ord, Hash)]
pub struct UserId {
    id: String,
}

impl View for UserId {
    type V = Seq<char>;

    closed spec fn view(&self) -> Seq<char> {
        self.id@
    }
}

impl UserId {
    /// Builds a login identifier by lowercasing the raw text; total,
    /// never fails.
    pub fn new(user_id: &str) -> (r: UserId)
        ensures
            r@ == lower_of(user_id@),
            is_ascii_chars(user_id@) ==> r@ == ascii_lower(user_id@),
    {
        UserId { id: lowercase(user_id) }
    }

    /// Rebuilds an identifier from a persisted or transported string,
    /// applying the same canonicalization as `new`.
    pub fn from_storage_string(s: String) -> (r: UserId)
        ensures
            r@ == lower_of(s@),
            is_ascii_chars(s@) ==> r@ == ascii_lower(s@),
    {
        UserId::new(s.as_str())
    }

    /// The canonical (lowercased) form.
    pub fn as_str(&self) -> (r: &str)
        ensures
            r@ == self@,
    {
        self.id.as_str()
    }

    /// The canonical form as an owned string.
    pub fn into_string(self) -> (r: String)
        ensures
            r@ == self@,
    {
        self.id
    }

    /// A numeric surrogate key is never a valid source for a login
    /// identifier: this conversion always fails.
    pub fn try_from_u64(n: u64) -> (r: Result<UserId, ValidationError>)
        ensures
            r == Err::<UserId, ValidationError>(ValidationError::InvalidIdentifier),
    {
        let _ = n;
        Err(ValidationError::InvalidIdentifier)
    }
}

/// ASCII case folding is insensitive to prior case raising: folding a
/// sequence and folding its uppercased form agree on every input.
pub proof fn lemma_ascii_case_fold(s: Seq<char>)
    ensures
        ascii_lower(ascii_upper(s)) =~= ascii_lower(s),
{
    assert forall|i: int| 0 <= i < s.len() implies ascii_lower_char(ascii_upper_char(s[i]))
        == ascii_lower_char(s[i]) by {
        lemma_ascii_char_case_fold(s[i]);
    }
}

/// ASCII case folding of one character is insensitive to prior case
/// raising.
pub proof fn lemma_ascii_char_case_fold(c: char)
    ensures
        ascii_lower_char(ascii_upper_char(c)) == ascii_lower_char(c),
{
    vstd::utf8::char_is_scalar(c);
    if is_ascii_lower(c) {
        let u = ascii_upper_char(c);
        assert(u as u32 == c as u32 - 32);
        assert(ascii_lower_char(u) as u32 == c as u32);
        vstd::utf8::char_u32_cast(c, c as u32);
    }
}

/// ASCII case folding never leaves an uppercase letter behind.
pub proof fn lemma_ascii_lower_is_lowercase(s: Seq<char>)
    ensures
        forall|i: int| 0 <= i < s.len() ==> !is_ascii_upper(#[trigger] ascii_lower(s)[i]),
{
    assert forall|i: int| 0 <= i < s.len() implies !is_ascii_upper(ascii_lower(s)[i]) by {
        let c = s[i];
        vstd::utf8::char_is_scalar(c);
        if is_ascii_upper(c) {
            assert(ascii_lower_char(c) as u32 == c as u32 + 32);
        }
    }
}

/// ASCII case folding is idempotent.
pub proof fn lemma_ascii_lower_idempotent(s: Seq<char>)
    ensures
        ascii_lower(ascii_lower(s)) =~= ascii_lower(s),
{
    assert forall|i: int| 0 <= i < s.len() implies ascii_lower_char(ascii_lower_char(s[i]))
        == ascii_lower_char(s[i]) by {
        let c = s[i];
        vstd::utf8::char_is_scalar(c);
        if is_ascii_upper(c) {
            assert(ascii_lower_char(c) as u32 == c as u32 + 32);
        }
    }
}

} // verus!
