//! Identifiers of threads, groups, users, tags and messages.

use vstd::prelude::*;

verus! {

/// A 128-bit identifier, as the chat platform hands them out.
#[derive(Clone, Copy, PartialEq, Eq, Structural, Debug, Hash)]
pub struct Id {
    pub value: u128,
}

/// The lower-case hexadecimal digit that stands for `d`, for `0 <= d < 16`.
pub open spec fn hex_digit(d: int) -> char {
    seq!['0', '1', '2', '3', '4', '5', '6', '7', '8', '9', 'a', 'b', 'c', 'd', 'e', 'f'][d]
}

/// The `k`-th group of four bits of `value`, counted from the most
/// significant one, for `0 <= k < 32`.
pub open spec fn nibble(value: u128, k: int) -> int {
    ((value >> ((4 * (31 - k)) as u128)) & 0xf) as int
}

/// How many hyphens stand before position `i` of the hyphenated form.
pub open spec fn hyphens_before(i: int) -> int {
    if i < 8 {
        0
    } else if i < 13 {
        1
    } else if i < 18 {
        2
    } else if i < 23 {
        3
    } else {
        4
    }
}

/// The hyphenated form of an identifier: 32 lower-case hexadecimal digits,
/// most significant first, in groups of 8, 4, 4, 4 and 12.
pub open spec fn hyphenated(value: u128) -> Seq<char> {
    Seq::new(
        36,
        |i: int|
            if i == 8 || i == 13 || i == 18 || i == 23 {
                '-'
            } else {
                hex_digit(nibble(value, i - hyphens_before(i)))
            },
    )
}

/// What `uuid::Uuid::parse_str` makes of a text: the value it reads, or
/// nothing where it refuses the text.
pub uninterp spec fn uuid_parsed(text: Seq<char>) -> Option<u128>;

impl Id {
    /// The identifier whose bits are all zero.
    pub fn nil() -> (r: Id)
        ensures
            r.value == 0,
    {
        Id { value: 0 }
    }

    /// `uuid::Uuid::parse_str`: the identifier that a text spells, in any of
    /// the forms that the `uuid` crate reads.
    #[verifier::external_body]
    pub(crate) fn parse_str(text: &str) -> (r: Option<Id>)
        ensures
            r == match uuid_parsed(text@) {
                Some(value) => Some(Id { value }),
                None => None,
            },
    {
        uuid::Uuid::parse_str(text).ok().map(|u| Id { value: u.as_u128() })
    }

    /// `uuid::Uuid::hyphenated`, written out by its `Display`: the 36
    /// characters of the hyphenated lower-case form.
    #[verifier::external_body]
    pub(crate) fn hyphenated_text(self) -> (r: String)
        ensures
            r@ == hyphenated(self.value),
    {
        uuid::Uuid::from_u128(self.value).hyphenated().to_string()
    }

    /// `uuid::Uuid::new_v4`: a random identifier. Nothing is known of it.
    #[verifier::external_body]
    pub(crate) fn random() -> (r: Id)
    {
        Id { value: uuid::Uuid::new_v4().as_u128() }
    }
}

} // verus!
