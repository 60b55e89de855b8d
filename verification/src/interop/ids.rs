//! Task identifiers are 128-bit values; their text form and parsing come
//! from the `uuid` crate.
use vstd::prelude::*;

verus! {

/// Lower-case hexadecimal digit for a value below sixteen.
pub open spec fn hex_digit(d: nat) -> char {
    if d < 10 {
        crate::text::digit_char(d)
    } else if d == 10 {
        'a'
    } else if d == 11 {
        'b'
    } else if d == 12 {
        'c'
    } else if d == 13 {
        'd'
    } else if d == 14 {
        'e'
    } else {
        'f'
    }
}

/// The `j`-th hexadecimal digit of `v`, counting from the least significant.
pub open spec fn nibble_from_low(v: nat, j: nat) -> nat
    decreases j,
{
    if j == 0 {
        v % 16
    } else {
        nibble_from_low(v / 16, (j - 1) as nat)
    }
}

/// The 32 hexadecimal digits of an identifier, most significant first.
pub open spec fn id_hex(id: u128) -> Seq<char> {
    Seq::new(32, |k: int| hex_digit(nibble_from_low(id as nat, (31 - k) as nat)))
}

/// Canonical text of an identifier: lower-case hexadecimal in groups of
/// 8-4-4-4-12 digits separated by hyphens.
pub open spec fn id_text(id: u128) -> Seq<char> {
    let h = id_hex(id);
    h.subrange(0, 8) + seq!['-'] + h.subrange(8, 12) + seq!['-'] + h.subrange(12, 16) + seq!['-']
        + h.subrange(16, 20) + seq!['-'] + h.subrange(20, 32)
}

/// What `uuid::Uuid::parse_str` returns for a text: the 128-bit value of
/// the identifier it accepts, or the `Display` text of its error.
pub uninterp spec fn spec_uuid_parse(s: Seq<char>) -> Result<u128, Seq<char>>;

/// Text of an identifier through `uuid::Uuid`'s `Display`, which writes the
/// hyphenated lower-case form of the big-endian bytes of the value.
#[verifier::external_body]
pub(crate) fn id_to_text(id: u128) -> (s: String)
    ensures
        s@ == id_text(id),
{
    uuid::Uuid::from_u128(id).to_string()
}

/// A fresh random identifier from `uuid::Uuid::new_v4`. Nothing is claimed
/// of its value beyond the version digit that `new_v4` always sets to 4.
#[verifier::external_body]
pub(crate) fn fresh_id() -> (id: u128)
    ensures
        nibble_from_low(id as nat, 19) == 4,
{
    uuid::Uuid::new_v4().as_u128()
}

/// `uuid::Uuid::parse_str`: the accepted identifier, or the text of the
/// error for a text that is not a UUID in one of the forms the crate
/// accepts. Among those forms is the canonical hyphenated text, which
/// parses back to its identifier.
#[verifier::external_body]
pub(crate) fn parse_id(s: &str) -> (r: Result<u128, String>)
    ensures
        match r {
            Ok(id) => (spec_uuid_parse(s@) == Ok::<u128, Seq<char>>(id)),
            Err(e) => (spec_uuid_parse(s@) == Err::<u128, Seq<char>>(e@)),
        },
        forall|id: u128| #[trigger] id_text(id) == s@ ==> (r == Ok::<u128, String>(id)),
{
    match uuid::Uuid::parse_str(s) {
        Ok(u) => Ok(u.as_u128()),
        Err(e) => Err(e.to_string()),
    }
}

} // verus!
