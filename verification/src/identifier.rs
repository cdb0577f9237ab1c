//! Identifiers of holds and events: UUIDs, held as 128-bit numbers.

use vstd::prelude::*;

verus! {

/// Sixteen to the power of `n`.
pub open spec fn pow16(n: nat) -> nat
    decreases n,
{
    if n == 0 {
        1
    } else {
        16 * pow16((n - 1) as nat)
    }
}

/// The lower-case hexadecimal digit for `n`, where `n` is below sixteen.
pub open spec fn hex_digit(n: nat) -> char {
    if n < 10 {
        (48 + n) as char
    } else {
        (87 + n) as char
    }
}

/// The hexadecimal digit of `id` at `position`, counted from the highest of its
/// thirty-two digits.
pub open spec fn hex_digit_at(id: u128, position: nat) -> char {
    hex_digit((id as nat / pow16((31 - position) as nat)) % 16)
}

/// `id` as text: its thirty-two hexadecimal digits, in groups of eight, four, four,
/// four and twelve with hyphens between them.
pub open spec fn uuid_text(id: u128) -> Seq<char> {
    Seq::new(
        36,
        |i: int|
            if i == 8 || i == 13 || i == 18 || i == 23 {
                '-'
            } else if i < 8 {
                hex_digit_at(id, i as nat)
            } else if i < 13 {
                hex_digit_at(id, (i - 1) as nat)
            } else if i < 18 {
                hex_digit_at(id, (i - 2) as nat)
            } else if i < 23 {
                hex_digit_at(id, (i - 3) as nat)
            } else {
                hex_digit_at(id, (i - 4) as nat)
            },
    )
}

/// Whether `id` carries version seven and the variant of RFC 4122.
pub open spec fn is_version_7(id: u128) -> bool {
    &&& (id / 0x1000_0000_0000_0000_0000) % 16 == 7
    &&& (id / 0x4000_0000_0000_0000) % 4 == 2
}

/// Where the hexadecimal digit at `position` stands in the text of an identifier.
spec fn index_of_digit(position: nat) -> nat {
    if position < 8 {
        position
    } else if position < 12 {
        position + 1
    } else if position < 16 {
        position + 2
    } else if position < 20 {
        position + 3
    } else {
        position + 4
    }
}

proof fn lemma_hex_digit_determines(a: nat, b: nat)
    requires
        a < 16,
        b < 16,
        hex_digit(a) == hex_digit(b),
    ensures
        a == b,
{
    assert(hex_digit(a) as int == if a < 10 {
        48 + a
    } else {
        87 + a
    });
    assert(hex_digit(b) as int == if b < 10 {
        48 + b
    } else {
        87 + b
    });
}

proof fn lemma_pow16_positive(n: nat)
    ensures
        pow16(n) > 0,
    decreases n,
{
    if n > 0 {
        lemma_pow16_positive((n - 1) as nat);
    }
}

/// Identifiers with the same text agree in all digits above the lowest `k`.
proof fn lemma_higher_digits(a: u128, b: u128, k: nat)
    requires
        uuid_text(a) == uuid_text(b),
        k <= 32,
    ensures
        a as nat / pow16(k) == b as nat / pow16(k),
    decreases 32 - k,
{
    lemma_pow16_positive(k);
    if k == 32 {
        assert(pow16(32) == 0x1_0000_0000_0000_0000_0000_0000_0000_0000) by {
            reveal_with_fuel(pow16, 33);
        }
        vstd::arithmetic::div_mod::lemma_basic_div(a as int, pow16(32) as int);
        vstd::arithmetic::div_mod::lemma_basic_div(b as int, pow16(32) as int);
    } else {
        lemma_higher_digits(a, b, k + 1);
        let position = (31 - k) as nat;
        let i = index_of_digit(position) as int;
        assert(uuid_text(a)[i] == hex_digit_at(a, position));
        assert(uuid_text(b)[i] == hex_digit_at(b, position));
        lemma_hex_digit_determines(
            (a as nat / pow16(k)) % 16,
            (b as nat / pow16(k)) % 16,
        );
        assert(pow16(k + 1) == pow16(k) * 16);
        vstd::arithmetic::div_mod::lemma_div_denominator(a as int, pow16(k) as int, 16);
        vstd::arithmetic::div_mod::lemma_div_denominator(b as int, pow16(k) as int, 16);
    }
}

/// Identifiers with the same text are the same.
pub proof fn texts_tell_identifiers_apart(a: u128, b: u128)
    requires
        uuid_text(a) == uuid_text(b),
    ensures
        a == b,
{
    lemma_higher_digits(a, b, 0);
    assert(a as nat / 1 == a as nat && b as nat / 1 == b as nat);
}

/// `Uuid::now_v7` of `uuid`: a fresh identifier, made of the current time (from a
/// system clock that stands after the start of 1970), a counter and random bits. Only
/// its version and variant are known beforehand; that it differs from the identifiers
/// made before is not stated.
#[verifier::external_body]
pub(crate) fn now_v7() -> (r: u128)
    ensures
        is_version_7(r),
{
    uuid::Uuid::now_v7().as_u128()
}

/// The `Display` of `uuid::Uuid`: the hyphenated form, in lower case.
#[verifier::external_body]
pub(crate) fn to_text(id: u128) -> (r: String)
    ensures
        r@ == uuid_text(id),
{
    uuid::Uuid::from_u128(id).to_string()
}

} // verus!
