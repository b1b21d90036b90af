use vstd::prelude::*;

verus! {

use crate::codec::Serialized;
use crate::errors::ValidationError;
use crate::identifier::Uuid;
use crate::identifier::derived_uuid_text;
use crate::login::UserId;
use crate::time::Timestamp;

/// A named attribute: the attribute's name paired with its opaque
/// encoded value. Which type the bytes decode into is tracked out of
/// band, by the schema layer, through the attribute type tag.
#[derive(Clone, PartialEq, Eq, Hash)]
pub struct AttributeValue {
    /// The attribute's name.
    pub name: String,
    /// The attribute's encoded value.
    pub value: Serialized,
}

impl AttributeValue {
    /// Pairs an attribute name with an encoded value.
    pub fn new(name: String, value: Serialized) -> (r: AttributeValue)
        ensures
            r.name == name,
            r.value == value,
    {
        AttributeValue { name, value }
    }
}

/// A directory user: an immutable snapshot of its identifying fields
/// and attribute values. Group membership is not stored here; it is
/// supplied separately as `UserAndGroups`.
#[derive(Clone, PartialEq, Eq)]
pub struct User {
    /// The user's normalized login identifier.
    pub user_id: UserId,
    /// The user's email address.
    pub email: String,
    /// The user's display name, when one is set.
    pub display_name: Option<String>,
    /// When the user was created.
    pub creation_date: Timestamp,
    /// The user's deterministic identifier.
    pub uuid: Uuid,
    /// The user's further attribute values, in order.
    pub attributes: Vec<AttributeValue>,
}

impl User {
    /// Assembles a user, deriving its deterministic identifier from
    /// the email and the creation time, so that identical inputs
    /// always rebuild the identical user.
    pub fn new(
        user_id: UserId,
        email: String,
        display_name: Option<String>,
        creation_date: Timestamp,
        attributes: Vec<AttributeValue>,
    ) -> (r: User)
        requires
            creation_date.well_formed(),
        ensures
            r.user_id == user_id,
            r.email == email,
            r.display_name == display_name,
            r.creation_date == creation_date,
            r.attributes == attributes,
            r.uuid@ == derived_uuid_text(
                email@,
                creation_date.secs as int,
                creation_date.nsecs as int,
            ),
    {
        let uuid = Uuid::from_name_and_date(email.as_str(), &creation_date);
        User { user_id, email, display_name, creation_date, uuid, attributes }
    }
}

/// A group's integer surrogate key, as the storage layer assigns it.
#[derive(Clone, Copy, Debug, PartialEq, Eq, PartialOrd, Ord, Hash, Structural)]
pub struct GroupId(pub i32);

impl GroupId {
    /// Converts a storage-side unsigned key, rejecting values that do
    /// not fit the signed 32-bit key space.
    pub fn try_from_u64(n: u64) -> (r: Result<GroupId, ValidationError>)
        ensures
            n <= 0x7fff_ffff ==> r == Ok::<GroupId, ValidationError>(GroupId(n as i32)),
            n > 0x7fff_ffff ==> r == Err::<GroupId, ValidationError>(
                ValidationError::InvalidIdentifier,
            ),
    {
        if n <= 0x7fff_ffff {
            Ok(GroupId(n as i32))
        } else {
            Err(ValidationError::InvalidIdentifier)
        }
    }
}

/// A directory group, member list included.
#[derive(Clone, PartialEq, Eq)]
pub struct Group {
    /// The group's integer surrogate key.
    pub id: GroupId,
    /// The group's display name.
    pub display_name: String,
    /// When the group was created.
    pub creation_date: Timestamp,
    /// The group's deterministic identifier.
    pub uuid: Uuid,
    /// The members' login identifiers.
    pub users: Vec<UserId>,
    /// The group's further attribute values, in order.
    pub attributes: Vec<AttributeValue>,
}

/// A reduced, membership-free projection of a group, for callers that
/// do not need the member list.
#[derive(Clone, PartialEq, Eq)]
pub struct GroupDetails {
    /// The group's integer surrogate key.
    pub group_id: GroupId,
    /// The group's display name.
    pub display_name: String,
    /// When the group was created.
    pub creation_date: Timestamp,
    /// The group's deterministic identifier.
    pub uuid: Uuid,
    /// The group's further attribute values, in order.
    pub attributes: Vec<AttributeValue>,
}

/// A user together with the groups it belongs to; `None` for the
/// groups means "not fetched", distinct from "fetched and empty".
#[derive(Clone, PartialEq, Eq)]
pub struct UserAndGroups {
    /// The user itself.
    pub user: User,
    /// Its groups, when they were fetched.
    pub groups: Option<Vec<GroupDetails>>,
}

} // verus!
