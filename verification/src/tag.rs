use vstd::prelude::*;

verus! {

use crate::errors::ValidationError;

/// The closed set of attribute value kinds the directory stores.
///
/// Each variant has one canonical short ASCII name, used verbatim at
/// the storage and transport boundaries: `"String"` for text,
/// `"Integer"` for 8-byte integers, `"JpegPhoto"` for binary assets
/// and `"DateTime"` for timestamps.
#[derive(Clone, Copy, Debug, PartialEq, Eq, Structural, Hash)]
pub enum AttributeType {
    /// A UTF-8 text value; canonical name `"String"`.
    Text,
    /// An 8-byte signed integer value; canonical name `"Integer"`.
    Integer,
    /// A validated binary photo asset; canonical name `"JpegPhoto"`.
    BinaryAsset,
    /// A timestamp value; canonical name `"DateTime"`.
    Timestamp,
}

/// The canonical short name of an attribute type.
pub open spec fn canonical_tag_name(t: AttributeType) -> Seq<char> {
    match t {
        AttributeType::Text => "String"@,
        AttributeType::Integer => "Integer"@,
        AttributeType::BinaryAsset => "JpegPhoto"@,
        AttributeType::Timestamp => "DateTime"@,
    }
}

/// The attribute type a piece of text names, if any: an exact,
/// case-sensitive match against the four canonical names.
pub open spec fn parse_tag(s: Seq<char>) -> Option<AttributeType> {
    if s == "String"@ {
        Some(AttributeType::Text)
    } else if s == "Integer"@ {
        Some(AttributeType::Integer)
    } else if s == "JpegPhoto"@ {
        Some(AttributeType::BinaryAsset)
    } else if s == "DateTime"@ {
        Some(AttributeType::Timestamp)
    } else {
        None
    }
}

/// Exact equality of two string slices, by contents.
fn str_eq(a: &str, b: &str) -> (r: bool)
    ensures
        r == (a@ == b@),
{
    let x = a.to_owned();
    let y = b.to_owned();
    x == y
}

impl AttributeType {
    /// Parses a canonical short name back into its attribute type.
    ///
    /// Only the four canonical names are accepted, case-sensitively;
    /// anything else is rejected, never silently mapped.
    pub fn parse(s: &str) -> (r: Result<AttributeType, ValidationError>)
        ensures
            r == match parse_tag(s@) {
                Some(t) => Ok::<AttributeType, ValidationError>(t),
                None => Err::<AttributeType, ValidationError>(
                    ValidationError::UnknownAttributeType,
                ),
            },
    {
        if str_eq(s, "String") {
            Ok(AttributeType::Text)
        } else if str_eq(s, "Integer") {
            Ok(AttributeType::Integer)
        } else if str_eq(s, "JpegPhoto") {
            Ok(AttributeType::BinaryAsset)
        } else if str_eq(s, "DateTime") {
            Ok(AttributeType::Timestamp)
        } else {
            Err(ValidationError::UnknownAttributeType)
        }
    }

    /// The canonical short name of this attribute type.
    pub fn to_str(&self) -> (r: &'static str)
        ensures
            r@ == canonical_tag_name(*self),
    {
        match self {
            AttributeType::Text => "String",
            AttributeType::Integer => "Integer",
            AttributeType::BinaryAsset => "JpegPhoto",
            AttributeType::Timestamp => "DateTime",
        }
    }
}

/// Parsing a canonical name returns exactly the attribute type it
/// names: `parse` is a left inverse of `to_str` on every variant.
pub proof fn lemma_tag_name_roundtrip(t: AttributeType)
    ensures
        parse_tag(canonical_tag_name(t)) == Some(t),
{
    reveal_strlit("String");
    reveal_strlit("Integer");
    reveal_strlit("JpegPhoto");
    reveal_strlit("DateTime");
    assert("String"@.len() == 6);
    assert("Integer"@.len() == 7);
    assert("JpegPhoto"@.len() == 9);
    assert("DateTime"@.len() == 8);
}

} // verus!
