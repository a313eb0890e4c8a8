//! Identifiers of policy sets, policies and templates.

use vstd::arithmetic::power::pow;
use vstd::prelude::*;

verus! {

/// A 128-bit universally unique identifier, most significant digit first.
#[derive(Clone, Copy, Debug, PartialEq, Eq, Structural)]
pub struct Uuid {
    pub bits: u128,
}

/// The lower-case hexadecimal digit of a value below sixteen.
pub open spec fn hex_digit(n: int) -> char {
    seq!['0', '1', '2', '3', '4', '5', '6', '7', '8', '9', 'a', 'b', 'c', 'd', 'e', 'f'][n]
}

/// The `i`-th of the thirty-two hexadecimal digits of an identifier, the most
/// significant one being number zero.
pub open spec fn nibble(bits: u128, i: int) -> int {
    (bits as int / pow(16, (31 - i) as nat)) % 16
}

/// Whether the hyphenated form has a hyphen at position `i`.
pub open spec fn is_hyphen(i: int) -> bool {
    i == 8 || i == 13 || i == 18 || i == 23
}

/// How many hyphens stand before position `i` of the hyphenated form.
pub open spec fn hyphens_before(i: int) -> int {
    if i <= 8 {
        0
    } else if i <= 13 {
        1
    } else if i <= 18 {
        2
    } else if i <= 23 {
        3
    } else {
        4
    }
}

/// The hyphenated form of an identifier: thirty-two lower-case hexadecimal
/// digits in groups of eight, four, four, four and twelve.
pub open spec fn uuid_text(id: Uuid) -> Seq<char> {
    Seq::new(
        36,
        |i: int|
            if is_hyphen(i) {
                '-'
            } else {
                hex_digit(nibble(id.bits, i - hyphens_before(i)))
            },
    )
}

impl Uuid {
    /// Calls `uuid::Uuid::from_u128` and `to_string` on what it returns.
    ///
    /// Trusted: the text is the hyphenated lower-case form of the 128 bits,
    /// in big-endian order.
    #[verifier::external_body]
    pub(crate) fn hyphenated(bits: u128) -> (text: String)
        ensures
            text@ == uuid_text(Uuid { bits }),
    {
        uuid::Uuid::from_u128(bits).to_string()
    }

    /// The hyphenated form of this identifier.
    pub fn to_string(&self) -> (text: String)
        ensures
            text@ == uuid_text(*self),
    {
        Uuid::hyphenated(self.bits)
    }
}

/// Where the upper digits of two numbers agree and so does the digit below,
/// the numbers with that digit appended agree.
proof fn lemma_append_digit(a: int, b: int, k: nat)
    requires
        a >= 0,
        b >= 0,
        a / pow(16, k + 1) == b / pow(16, k + 1),
        (a / pow(16, k)) % 16 == (b / pow(16, k)) % 16,
    ensures
        a / pow(16, k) == b / pow(16, k),
{
    vstd::arithmetic::power::lemma_pow_positive(16, k);
    vstd::arithmetic::power::lemma_pow_adds(16, k, 1);
    vstd::arithmetic::power::lemma_pow1(16);
    vstd::arithmetic::div_mod::lemma_div_denominator(a, pow(16, k), 16);
    vstd::arithmetic::div_mod::lemma_div_denominator(b, pow(16, k), 16);
    vstd::arithmetic::div_mod::lemma_fundamental_div_mod(a / pow(16, k), 16);
    vstd::arithmetic::div_mod::lemma_fundamental_div_mod(b / pow(16, k), 16);
}

/// Two numbers below sixteen to the thirty-second power that share all
/// thirty-two digits agree from digit `k` upwards.
proof fn lemma_same_digits(a: u128, b: u128, k: nat)
    requires
        k <= 32,
        forall|i: int| 0 <= i < 32 ==> #[trigger] nibble(a, i) == nibble(b, i),
    ensures
        a as int / pow(16, k) == b as int / pow(16, k),
    decreases 32 - k,
{
    if k == 32 {
        assert(pow(16, 32) == 0x1_0000_0000_0000_0000_0000_0000_0000_0000int) by {
            vstd::arithmetic::power::lemma_pow_adds(16, 4, 4);
            vstd::arithmetic::power::lemma_pow_adds(16, 8, 8);
            vstd::arithmetic::power::lemma_pow_adds(16, 16, 16);
            assert(pow(16, 4) == 0x1_0000int) by {
                reveal_with_fuel(pow, 5);
            }
            assert(pow(16, 8) == 0x1_0000int * 0x1_0000int);
            assert(pow(16, 16) == 0x1_0000_0000int * 0x1_0000_0000int);
            assert(pow(16, 32) == 0x1_0000_0000_0000_0000int * 0x1_0000_0000_0000_0000int);
        }
        vstd::arithmetic::div_mod::lemma_basic_div(a as int, pow(16, 32));
        vstd::arithmetic::div_mod::lemma_basic_div(b as int, pow(16, 32));
    } else {
        lemma_same_digits(a, b, k + 1);
        assert(nibble(a, 31 - k) == nibble(b, 31 - k));
        lemma_append_digit(a as int, b as int, k);
    }
}

/// Different values below sixteen have different digits.
proof fn lemma_hex_digit_is_injective(m: int, n: int)
    requires
        0 <= m < 16,
        0 <= n < 16,
        hex_digit(m) == hex_digit(n),
    ensures
        m == n,
{
    let value = |k: int| if k < 10 { '0' as int + k } else { 'a' as int + k - 10 };
    assert(hex_digit(m) as int == value(m));
    assert(hex_digit(n) as int == value(n));
}

/// The hyphenated form has thirty-six characters: hyphens after eight, twelve,
/// sixteen and twenty digits, and lower-case hexadecimal digits everywhere else.
pub proof fn law_uuid_text_is_hyphenated(id: Uuid, i: int)
    requires
        0 <= i < 36,
    ensures
        uuid_text(id).len() == 36,
        uuid_text(id)[i] == '-' <==> i == 8 || i == 13 || i == 18 || i == 23,
        uuid_text(id)[i] == '-' || '0' <= uuid_text(id)[i] <= '9' || 'a' <= uuid_text(id)[i] <= 'f',
{
    let n = nibble(id.bits, i - hyphens_before(i));
    assert(0 <= n < 16);
    let value = if n < 10 {
        '0' as int + n
    } else {
        'a' as int + n - 10
    };
    assert(hex_digit(n) as int == value);
}

/// Two identifiers with the same hyphenated form are the same identifier.
pub proof fn law_uuid_text_is_injective(a: Uuid, b: Uuid)
    requires
        uuid_text(a) == uuid_text(b),
    ensures
        a == b,
{
    assert forall|d: int| 0 <= d < 32 implies #[trigger] nibble(a.bits, d) == nibble(b.bits, d) by {
        let i: int = if d < 8 {
            d
        } else if d < 12 {
            d + 1
        } else if d < 16 {
            d + 2
        } else if d < 20 {
            d + 3
        } else {
            d + 4
        };
        assert(!is_hyphen(i) && i - hyphens_before(i) == d);
        assert(uuid_text(a)[i] == hex_digit(nibble(a.bits, d)));
        assert(uuid_text(b)[i] == hex_digit(nibble(b.bits, d)));
        assert(0 <= nibble(a.bits, d) < 16);
        assert(0 <= nibble(b.bits, d) < 16);
        lemma_hex_digit_is_injective(nibble(a.bits, d), nibble(b.bits, d));
    }
    lemma_same_digits(a.bits, b.bits, 0);
    vstd::arithmetic::power::lemma_pow0(16);
}

} // verus!
