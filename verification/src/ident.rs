//! Record identifiers: 128-bit values that are written as UUID text.

use vstd::prelude::*;

verus! {

/// The identifier of a user, an organization or any other record.
#[derive(Debug, Clone, Copy, PartialEq, Eq, Structural, Hash)]
pub struct Id {
    pub value: u128,
}

/// The hyphenated lower-case text that `Uuid::to_string` writes for the
/// identifier with this 128-bit value.
pub uninterp spec fn uuid_text(value: int) -> Seq<char>;

/// The 128-bit value of the identifier that `Uuid::parse_str` reads out of a
/// text, if it accepts the text.
pub uninterp spec fn uuid_value(text: Seq<char>) -> Option<int>;

impl Id {
    /// The identifier as text.
    pub open spec fn text(self) -> Seq<char> {
        uuid_text(self.value as int)
    }

    /// The identifier that a text stands for, if it stands for one.
    pub open spec fn parsed(text: Seq<char>) -> Option<Id> {
        match uuid_value(text) {
            Some(value) => if 0 <= value <= u128::MAX {
                Some(Id { value: value as u128 })
            } else {
                None
            },
            None => None,
        }
    }

    pub fn from_u128(value: u128) -> (id: Id)
        ensures
            id.value == value,
    {
        Id { value }
    }

    pub fn as_u128(&self) -> (value: u128)
        ensures
            value == self.value,
    {
        self.value
    }
}

/// `Uuid::to_string` on the identifier with this value. The text is the named
/// one, and, as `uuid` documents of every format it writes, `Uuid::parse_str`
/// reads the same identifier back from it.
#[verifier::external_body]
pub(crate) fn uuid_to_string(id: Id) -> (text: String)
    ensures
        text@ == uuid_text(id.value as int),
        uuid_value(text@) == Some(id.value as int),
{
    uuid::Uuid::from_u128(id.value).to_string()
}

/// `Uuid::parse_str`: the identifier that the text stands for, or `None` where
/// `uuid` rejects the text.
#[verifier::external_body]
pub(crate) fn uuid_parse_str(text: &str) -> (id: Option<Id>)
    ensures
        match id {
            Some(found) => uuid_value(text@) == Some(found.value as int),
            None => uuid_value(text@) is None,
        },
{
    let found = uuid::Uuid::parse_str(text).ok()?;
    Some(Id { value: found.as_u128() })
}

/// `Uuid::new_v4`: a random identifier, of which nothing is known in advance.
#[verifier::external_body]
pub(crate) fn uuid_new_v4() -> Id {
    Id { value: uuid::Uuid::new_v4().as_u128() }
}

} // verus!
