use vstd::prelude::*;

verus! {

/// Lowercase hexadecimal digit of `n` (0..=15).
pub open spec fn hex_digit(n: nat) -> char {
    if n < 10 {
        ((n + '0' as nat) as u32) as char
    } else {
        ((n - 10 + 'a' as nat) as u32) as char
    }
}

/// The `j`-th hexadecimal digit of `v`, counted from the least significant.
pub open spec fn nibble_from_low(v: nat, j: nat) -> nat
    decreases j,
{
    if j == 0 {
        v % 16
    } else {
        nibble_from_low(v / 16, (j - 1) as nat)
    }
}

/// Position among the 32 hexadecimal digits of the character at `p` of the
/// hyphenated form (8-4-4-4-12).
pub open spec fn uuid_digit_index(p: int) -> int {
    if p < 8 {
        p
    } else if p < 13 {
        p - 1
    } else if p < 18 {
        p - 2
    } else if p < 23 {
        p - 3
    } else {
        p - 4
    }
}

/// The hyphenated lowercase text of the identifier `id`, most significant
/// digit first (the form `Uuid`'s `Display` writes).
pub open spec fn uuid_text(id: u128) -> Seq<char> {
    Seq::new(
        36,
        |p: int|
            if p == 8 || p == 13 || p == 18 || p == 23 {
                '-'
            } else {
                hex_digit(nibble_from_low(id as nat, (31 - uuid_digit_index(p)) as nat))
            },
    )
}

/// The identifier that `uuid::Uuid::parse_str` reads from `text`, if any.
pub uninterp spec fn uuid_parse(text: Seq<char>) -> Option<u128>;

/// `uuid::Uuid::parse_str`, with the identifier taken as its 128-bit value
/// (`Uuid::as_u128`, most significant byte first). The result is named; the
/// contract adds what the crate documents: the hyphenated form it writes is
/// read back to the same identifier.
#[verifier::external_body]
pub(crate) fn parse_uuid(text: &str) -> (r: Option<u128>)
    ensures
        r == uuid_parse(text@),
        forall|id: u128| text@ == uuid_text(id) ==> r == Some(id),
{
    match uuid::Uuid::parse_str(text) {
        Ok(u) => Some(u.as_u128()),
        Err(_) => None,
    }
}

/// `Uuid::from_u128(id).to_string()`: the hyphenated lowercase text.
#[verifier::external_body]
pub(crate) fn uuid_to_text(id: u128) -> (r: String)
    ensures
        r@ == uuid_text(id),
{
    uuid::Uuid::from_u128(id).to_string()
}

/// Whether `id` is a random (version 4, RFC 4122 variant) identifier: its
/// version field holds 4 and its variant bits are `10`.
pub open spec fn is_random_v4(id: u128) -> bool {
    &&& (id >> 76u128) & 0xfu128 == 4
    &&& (id >> 62u128) & 0x3u128 == 2
}

/// `uuid::Uuid::new_v4()`, as its 128-bit value: random bits, except that
/// the version field is set to 4 and the variant bits to `10`.
#[verifier::external_body]
pub(crate) fn new_random_id() -> (r: u128)
    ensures
        is_random_v4(r),
{
    uuid::Uuid::new_v4().as_u128()
}

} // verus!
