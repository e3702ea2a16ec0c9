//! Request ids: 128-bit UUIDs, generated and rendered by the `uuid`
//! crate. The library keeps them as plain `u128` values (big-endian
//! reading of the 16 bytes, as `Uuid::as_u128` gives them).

use vstd::prelude::*;

verus! {

pub open spec fn hex_char(d: nat) -> char {
    if d < 10 {
        crate::text::digit_char(d)
    } else if d == 10 { 'a' }
    else if d == 11 { 'b' }
    else if d == 12 { 'c' }
    else if d == 13 { 'd' }
    else if d == 14 { 'e' }
    else { 'f' }
}

/// The lowest `n` hex digits of `v`, most significant first, in
/// lowercase and zero-padded.
pub open spec fn hex_digits(v: nat, n: nat) -> Seq<char>
    decreases n,
{
    if n == 0 {
        Seq::<char>::empty()
    } else {
        hex_digits(v / 16, (n - 1) as nat).push(hex_char(v % 16))
    }
}

/// The hyphenated form `xxxxxxxx-xxxx-xxxx-xxxx-xxxxxxxxxxxx` of a
/// UUID whose 16 bytes, read big-endian, are `v`.
pub open spec fn hyphenated(v: u128) -> Seq<char> {
    let h = hex_digits(v as nat, 32);
    h.subrange(0, 8) + seq!['-'] + h.subrange(8, 12) + seq!['-'] + h.subrange(12, 16)
        + seq!['-'] + h.subrange(16, 20) + seq!['-'] + h.subrange(20, 32)
}

/// `uuid::Uuid::from_u128(v)` rendered by its `Display` impl. Trusted
/// to give the lowercase hyphenated 8-4-4-4-12 hex form of the 16
/// big-endian bytes of `v`.
#[verifier::external_body]
pub(crate) fn uuid_hyphenated(v: u128) -> (s: String)
    ensures
        s@ == hyphenated(v),
{
    uuid::Uuid::from_u128(v).to_string()
}

/// `uuid::Uuid::new_v4()`, read back with `as_u128`. Trusted only for
/// the fixed bits of a version-4 UUID: the version nibble is 4 and the
/// two variant bits are `10`; the other bits are random and nothing is
/// claimed of them.
#[verifier::external_body]
pub(crate) fn random_uuid() -> (v: u128)
    ensures
        (v >> 76u128) & 0xfu128 == 4,
        (v >> 62u128) & 0x3u128 == 2,
{
    uuid::Uuid::new_v4().as_u128()
}

} // verus!
