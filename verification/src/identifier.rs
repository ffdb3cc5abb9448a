//! The text of a token identifier, and why two identifiers never share it.

use vstd::arithmetic::div_mod::{lemma_basic_div, lemma_div_denominator, lemma_fundamental_div_mod};
use vstd::arithmetic::power::{lemma_pow0, lemma_pow1, lemma_pow_adds, lemma_pow_positive, pow};
use vstd::prelude::*;

verus! {

/// The sixteen lower-case hexadecimal digits.
pub open spec fn hex_digits() -> Seq<char> {
    seq!['0', '1', '2', '3', '4', '5', '6', '7', '8', '9', 'a', 'b', 'c', 'd', 'e', 'f']
}

/// The `k`-th of the 32 hexadecimal digits of `id`, most significant first.
pub open spec fn uuid_digit(id: u128, k: int) -> char
    recommends
        0 <= k < 32,
{
    hex_digits()[(id as int / pow(16, (31 - k) as nat)) % 16]
}

/// The number of hyphens that stand before position `i` of a hyphenated UUID.
pub open spec fn hyphens_before(i: int) -> int {
    (if i > 8 { 1int } else { 0 }) + (if i > 13 { 1int } else { 0 }) + (if i > 18 { 1int } else { 0 })
        + (if i > 23 { 1int } else { 0 })
}

/// The canonical text of a UUID: 32 lower-case hexadecimal digits in groups
/// of 8, 4, 4, 4 and 12, with hyphens between the groups.
pub open spec fn uuid_hyphenated(id: u128) -> Seq<char> {
    Seq::new(
        36,
        |i: int|
            if i == 8 || i == 13 || i == 18 || i == 23 {
                '-'
            } else {
                uuid_digit(id, i - hyphens_before(i))
            },
    )
}

/// The value of the `k`-th hexadecimal digit of `id`, most significant first.
pub open spec fn uuid_nibble(id: u128, k: int) -> int {
    (id as int / pow(16, (31 - k) as nat)) % 16
}

/// The number that the first `j` hexadecimal digits of `id` make.
pub open spec fn leading_digits(id: u128, j: int) -> int {
    id as int / pow(16, (32 - j) as nat)
}

proof fn lemma_pow16_32()
    ensures
        pow(16, 32) == 0x1_0000_0000_0000_0000_0000_0000_0000_0000,
{
    lemma_pow1(16);
    lemma_pow_adds(16, 1, 1);
    assert(pow(16, 2) == 0x100);
    lemma_pow_adds(16, 2, 2);
    assert(pow(16, 4) == 0x1_0000);
    lemma_pow_adds(16, 4, 4);
    assert(pow(16, 8) == 0x1_0000_0000);
    lemma_pow_adds(16, 8, 8);
    assert(pow(16, 16) == 0x1_0000_0000_0000_0000);
    lemma_pow_adds(16, 16, 16);
}

proof fn lemma_leading_digits_step(id: u128, j: int)
    requires
        0 <= j < 32,
    ensures
        leading_digits(id, j + 1) == 16 * leading_digits(id, j) + uuid_nibble(id, j),
        0 <= uuid_nibble(id, j) < 16,
{
    let x = id as int;
    let d = pow(16, (31 - j) as nat);
    lemma_pow_positive(16, (31 - j) as nat);
    lemma_pow1(16);
    lemma_pow_adds(16, 1, (31 - j) as nat);
    assert(pow(16, (32 - j) as nat) == d * 16);
    lemma_div_denominator(x, d, 16);
    lemma_fundamental_div_mod(x / d, 16);
}

proof fn lemma_same_digits_same_leading(a: u128, b: u128, j: int)
    requires
        0 <= j <= 32,
        forall|k: int| 0 <= k < 32 ==> uuid_nibble(a, k) == uuid_nibble(b, k),
    ensures
        leading_digits(a, j) == leading_digits(b, j),
    decreases j,
{
    if j == 0 {
        lemma_pow16_32();
        lemma_basic_div(a as int, pow(16, 32));
        lemma_basic_div(b as int, pow(16, 32));
    } else {
        lemma_same_digits_same_leading(a, b, j - 1);
        lemma_leading_digits_step(a, j - 1);
        lemma_leading_digits_step(b, j - 1);
    }
}

proof fn lemma_digit_tells_nibble(m: int, n: int)
    requires
        0 <= m < 16,
        0 <= n < 16,
        hex_digits()[m] == hex_digits()[n],
    ensures
        m == n,
{
}

/// Where the `k`-th digit stands in the hyphenated text.
pub open spec fn digit_position(k: int) -> int {
    k + (if k >= 8 { 1int } else { 0 }) + (if k >= 12 { 1int } else { 0 }) + (if k >= 16 {
        1int
    } else {
        0
    }) + (if k >= 20 { 1int } else { 0 })
}

/// Two identifiers with the same text are the same identifier.
pub proof fn lemma_uuid_text_tells_id(a: u128, b: u128)
    requires
        uuid_hyphenated(a) == uuid_hyphenated(b),
    ensures
        a == b,
{
    assert forall|k: int| 0 <= k < 32 implies uuid_nibble(a, k) == uuid_nibble(b, k) by {
        let i = digit_position(k);
        assert(0 <= i < 36);
        assert(i - hyphens_before(i) == k);
        assert(uuid_hyphenated(a)[i] == uuid_digit(a, k));
        assert(uuid_hyphenated(b)[i] == uuid_digit(b, k));
        lemma_pow_positive(16, (31 - k) as nat);
        lemma_digit_tells_nibble(uuid_nibble(a, k), uuid_nibble(b, k));
    }
    lemma_same_digits_same_leading(a, b, 32);
    lemma_pow0(16);
}

} // verus!
