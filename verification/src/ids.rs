//! Identifiers: UUIDs by their 128-bit value.

use vstd::prelude::*;

verus! {

/// The lower-case character of a hexadecimal digit.
pub open spec fn hex_char(d: int) -> char {
    if d < 10 {
        (48 + d) as char
    } else {
        (87 + d) as char
    }
}

/// The hexadecimal digit of `n` with `place` digits after it.
pub open spec fn hex_digit(n: int, place: nat) -> int
    decreases place,
{
    if place == 0 {
        n % 16
    } else {
        hex_digit(n / 16, (place - 1) as nat)
    }
}

/// The number of hyphens before a position in the text of a UUID.
pub open spec fn hyphens_before(i: int) -> int {
    if i < 8 {
        0
    } else if i < 13 {
        1
    } else if i < 18 {
        2
    } else if i < 23 {
        3
    } else {
        4
    }
}

/// The text of a UUID: 32 lower-case hexadecimal digits, the first most significant, in groups of
/// 8, 4, 4, 4 and 12 with hyphens between them.
pub open spec fn uuid_text(id: u128) -> Seq<char> {
    Seq::new(
        36,
        |i: int|
            if i == 8 || i == 13 || i == 18 || i == 23 {
                '-'
            } else {
                hex_char(hex_digit(id as int, (31 - (i - hyphens_before(i))) as nat))
            },
    )
}

/// Whether `id` is a UUID of the random kind: version 4, of the variant of RFC 9562.
pub open spec fn is_random_uuid(id: u128) -> bool {
    &&& hex_digit(id as int, 19) == 4
    &&& 8 <= hex_digit(id as int, 15) <= 11
}

/// Draws an identifier with `uuid::Uuid::new_v4`. Which one is left to chance; its version and
/// its variant are not.
#[verifier::external_body]
pub(crate) fn fresh_id() -> (r: u128)
    ensures
        is_random_uuid(r),
{
    uuid::Uuid::new_v4().as_u128()
}

/// Prints an identifier with the `Display` of `uuid::Uuid`: hyphenated, in lower case.
#[verifier::external_body]
pub(crate) fn print_id(id: u128) -> (r: String)
    ensures
        r@ == uuid_text(id),
{
    uuid::Uuid::from_u128(id).to_string()
}

/// The digits of a number, with the number that its higher digits make up.
proof fn lemma_same_digits(a: int, b: int, count: nat)
    requires
        0 <= a,
        0 <= b,
        forall|p: nat| p < count ==> #[trigger] hex_digit(a, p) == hex_digit(b, p),
        a < vstd::arithmetic::power::pow(16, count),
        b < vstd::arithmetic::power::pow(16, count),
    ensures
        a == b,
    decreases count,
{
    if count == 0 {
        vstd::arithmetic::power::lemma_pow0(16);
    } else {
        let fewer = (count - 1) as nat;
        assert(hex_digit(a, 0) == hex_digit(b, 0));
        assert forall|p: nat| p < fewer implies #[trigger] hex_digit(a / 16, p) == hex_digit(
            b / 16,
            p,
        ) by {
            assert(hex_digit(a, p + 1) == hex_digit(b, p + 1));
        }
        reveal(vstd::arithmetic::power::pow);
        assert(vstd::arithmetic::power::pow(16, count) == 16 * vstd::arithmetic::power::pow(
            16,
            fewer,
        ));
        lemma_same_digits(a / 16, b / 16, fewer);
    }
}

/// A hexadecimal digit is below 16.
proof fn lemma_digit_range(n: int, place: nat)
    ensures
        0 <= hex_digit(n, place) < 16,
    decreases place,
{
    if place > 0 {
        lemma_digit_range(n / 16, (place - 1) as nat);
    }
}

/// Different identifiers print as different texts.
pub proof fn law_uuid_text_is_injective(a: u128, b: u128)
    requires
        uuid_text(a) == uuid_text(b),
    ensures
        a == b,
{
    assert forall|p: nat| p < 32 implies #[trigger] hex_digit(a as int, p) == hex_digit(
        b as int,
        p,
    ) by {
        let j = 31 - p as int;
        let i = if j < 8 {
            j
        } else if j < 12 {
            j + 1
        } else if j < 16 {
            j + 2
        } else if j < 20 {
            j + 3
        } else {
            j + 4
        };
        assert((31 - (i - hyphens_before(i))) as nat == p);
        assert(uuid_text(a)[i] == hex_char(hex_digit(a as int, p)));
        assert(uuid_text(b)[i] == hex_char(hex_digit(b as int, p)));
        lemma_digit_range(a as int, p);
        lemma_digit_range(b as int, p);
    }
    assert(vstd::arithmetic::power::pow(16, 32) == 0x1_0000_0000_0000_0000_0000_0000_0000_0000int)
        by {
        reveal_with_fuel(vstd::arithmetic::power::pow, 33);
    }
    lemma_same_digits(a as int, b as int, 32);
}

} // verus!
