//! Entity identifiers: 128-bit values with a canonical text form.

use std::str::FromStr;
use vstd::prelude::*;

verus! {

/// An identifier, held as the 128-bit number it stands for.
#[derive(Clone, Copy, Debug, PartialEq, Eq, Structural)]
pub struct Uuid {
    pub bits: u128,
}

/// `uuid::Error`: why a text is no identifier. Carried through unread.
#[verifier::external_type_specification]
#[verifier::external_body]
pub struct ExUuidError(uuid::Error);

/// The lower-case hexadecimal digit for a value below sixteen.
pub open spec fn hex_digit(value: u128) -> char {
    if value < 10 {
        ((0x30 + value) as u8) as char
    } else {
        ((0x57 + value) as u8) as char
    }
}

/// Which of the thirty-two digits, counted from the most significant,
/// stands at a place of the text that holds no hyphen.
pub open spec fn digit_at(place: int) -> int {
    if place < 8 {
        place
    } else if place < 13 {
        place - 1
    } else if place < 18 {
        place - 2
    } else if place < 23 {
        place - 3
    } else {
        place - 4
    }
}

/// The canonical text of an identifier: its thirty-two lower-case
/// hexadecimal digits, most significant first, in groups of eight, four,
/// four, four and twelve with a hyphen between the groups.
pub open spec fn uuid_text(bits: u128) -> Seq<char> {
    Seq::new(
        36,
        |place: int|
            if place == 8 || place == 13 || place == 18 || place == 23 {
                '-'
            } else {
                hex_digit((bits >> ((4 * (31 - digit_at(place))) as u128)) & 0xf)
            },
    )
}

/// The identifier that the `uuid` crate reads from a text, if it reads one.
pub uninterp spec fn uuid_parsed(text: Seq<char>) -> Option<u128>;

/// `uuid::Uuid::from_u128` followed by the `Display` of `uuid::Uuid`.
/// Trusted: the text is the crate's hyphenated lower-case form of `bits`,
/// and the crate's parser reads that form back to the same value (its
/// documentation promises that every form the crate writes is accepted by
/// its parser).
#[verifier::external_body]
fn format_uuid(bits: u128) -> (r: String)
    ensures
        r@ == uuid_text(bits),
        uuid_parsed(r@) == Some(bits),
{
    uuid::Uuid::from_u128(bits).to_string()
}

/// `uuid::Uuid::from_str`, with the value taken out by `as_u128`.
/// Trusted: the outcome depends on the text alone.
#[verifier::external_body]
fn read_uuid(text: &str) -> (r: Result<u128, uuid::Error>)
    ensures
        r matches Ok(bits) ==> uuid_parsed(text@) == Some(bits),
        r is Err ==> uuid_parsed(text@) is None,
{
    uuid::Uuid::from_str(text).map(|id| id.as_u128())
}

/// `uuid::Uuid::new_v4`, with the value taken out by `as_u128`.
/// Trusted: whatever the random source gives, the crate sets the version
/// to four and the variant to the standard one.
#[verifier::external_body]
fn random_uuid() -> (r: u128)
    ensures
        is_random_version(r),
{
    uuid::Uuid::new_v4().as_u128()
}

/// The bits that mark a random identifier of the standard variant: the
/// version field holds four and the variant field begins with `10`.
pub open spec fn is_random_version(bits: u128) -> bool {
    bits & 0x0000_0000_0000_f000_c000_0000_0000_0000 == 0x0000_0000_0000_4000_8000_0000_0000_0000
}

impl Uuid {
    /// The identifier that `text` spells, if it spells one.
    pub open spec fn parsed(text: Seq<char>) -> Option<Uuid> {
        match uuid_parsed(text) {
            Some(bits) => Some(Uuid { bits }),
            None => None,
        }
    }

    /// A fresh random identifier.
    pub fn new_v4() -> (r: Uuid)
        ensures
            is_random_version(r.bits),
    {
        Uuid { bits: random_uuid() }
    }

    /// The canonical text of this identifier. Reading the text back gives
    /// the identifier again.
    pub fn to_text(&self) -> (r: String)
        ensures
            r@ == uuid_text(self.bits),
            Uuid::parsed(r@) == Some(*self),
    {
        format_uuid(self.bits)
    }

    /// Reads an identifier from its text.
    pub fn parse_str(text: &str) -> (r: Option<Uuid>)
        ensures
            r == Uuid::parsed(text@),
    {
        match read_uuid(text) {
            Ok(bits) => Some(Uuid { bits }),
            Err(_) => None,
        }
    }
}

} // verus!
