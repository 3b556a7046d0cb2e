//! What holds of texts, and of the numbers that they stand for.

use vstd::prelude::*;

use crate::config::setting;
use crate::onchain::{hex_value, without_hex_prefix};
use crate::text::{
    blank, decimal, digit_char, digit_value, digits_value, is_white_space, trimmed, unsigned_digits,
    unsigned_value, without_leading, without_trailing,
};

verus! {

/// White space is one of these characters: the tab and the four after it, the space, the next
/// line, the no-break space, and those that Unicode has beyond them.
pub proof fn law_white_space_is_one_of_these(c: char)
    ensures
        is_white_space(c) == seq![
            '\t',
            '\n',
            '\u{b}',
            '\u{c}',
            '\r',
            ' ',
            '\u{85}',
            '\u{a0}',
            '\u{1680}',
            '\u{2000}',
            '\u{2001}',
            '\u{2002}',
            '\u{2003}',
            '\u{2004}',
            '\u{2005}',
            '\u{2006}',
            '\u{2007}',
            '\u{2008}',
            '\u{2009}',
            '\u{200a}',
            '\u{2028}',
            '\u{2029}',
            '\u{202f}',
            '\u{205f}',
            '\u{3000}',
        ].contains(c),
{
    let all = seq![
        '\t',
        '\n',
        '\u{b}',
        '\u{c}',
        '\r',
        ' ',
        '\u{85}',
        '\u{a0}',
        '\u{1680}',
        '\u{2000}',
        '\u{2001}',
        '\u{2002}',
        '\u{2003}',
        '\u{2004}',
        '\u{2005}',
        '\u{2006}',
        '\u{2007}',
        '\u{2008}',
        '\u{2009}',
        '\u{200a}',
        '\u{2028}',
        '\u{2029}',
        '\u{202f}',
        '\u{205f}',
        '\u{3000}',
    ];
    let n = c as u32;
    if is_white_space(c) {
        let i = if n <= 13 {
            n - 9
        } else if n == 32 {
            5
        } else if n == 133 {
            6
        } else if n == 160 {
            7
        } else if n == 5760 {
            8
        } else if n <= 8202 {
            n - 8192 + 9
        } else if n == 8232 {
            20
        } else if n == 8233 {
            21
        } else if n == 8239 {
            22
        } else if n == 8287 {
            23
        } else {
            24
        };
        assert(all[i] == c);
    }
    if all.contains(c) {
        let i = choose|i: int| 0 <= i < all.len() && all[i] == c;
        assert(all[i] == c);
    }
}

/// A text is blank where none of its characters is anything but white space.
pub proof fn law_blank_holds_white_space_alone(s: Seq<char>)
    ensures
        blank(s) == !exists|i: int| 0 <= i < s.len() && !is_white_space(#[trigger] s[i]),
        blank(s) == (trimmed(s).len() == 0),
{
    law_trimmed_is_the_middle(s);
    let (from, to) = choose|from: int, to: int|
        #![trigger s.subrange(from, to)]
        {
            &&& 0 <= from <= to <= s.len()
            &&& trimmed(s) == s.subrange(from, to)
            &&& forall|i: int| 0 <= i < from ==> is_white_space(#[trigger] s[i])
            &&& forall|i: int| to <= i < s.len() ==> is_white_space(#[trigger] s[i])
            &&& from < to ==> !is_white_space(s[from]) && !is_white_space(s[to - 1])
        };
    if blank(s) && from < to {
        assert(is_white_space(s[from]));
    }
}

/// What is left of a text without its leading white space.
proof fn lemma_without_leading(s: Seq<char>) -> (n: int)
    ensures
        0 <= n <= s.len(),
        without_leading(s) == s.skip(n),
        forall|i: int| 0 <= i < n ==> is_white_space(#[trigger] s[i]),
        n < s.len() ==> !is_white_space(s[n]),
    decreases s.len(),
{
    if s.len() > 0 && is_white_space(s[0]) {
        let rest = s.drop_first();
        let n = lemma_without_leading(rest);
        assert(rest.skip(n) =~= s.skip(n + 1));
        assert forall|i: int| 0 <= i < n + 1 implies is_white_space(#[trigger] s[i]) by {
            if i > 0 {
                assert(rest[i - 1] == s[i]);
            }
        }
        if n < rest.len() {
            assert(rest[n] == s[n + 1]);
        }
        n + 1
    } else {
        assert(s.skip(0) =~= s);
        0
    }
}

/// What is left of a text without its trailing white space.
proof fn lemma_without_trailing(s: Seq<char>) -> (n: int)
    ensures
        0 <= n <= s.len(),
        without_trailing(s) == s.take(n),
        forall|i: int| n <= i < s.len() ==> is_white_space(#[trigger] s[i]),
        n > 0 ==> !is_white_space(s[n - 1]),
    decreases s.len(),
{
    if s.len() > 0 && is_white_space(s.last()) {
        let rest = s.drop_last();
        let n = lemma_without_trailing(rest);
        assert(rest.take(n) =~= s.take(n));
        assert forall|i: int| n <= i < s.len() implies is_white_space(#[trigger] s[i]) by {
            if i < rest.len() {
                assert(rest[i] == s[i]);
            }
        }
        if n > 0 {
            assert(rest[n - 1] == s[n - 1]);
        }
        n
    } else {
        assert(s.take(s.len() as int) =~= s);
        s.len() as int
    }
}

/// A trimmed text is the part of it between the first and the last character that are not white
/// space.
pub proof fn law_trimmed_is_the_middle(s: Seq<char>)
    ensures
        exists|from: int, to: int|
            #![trigger s.subrange(from, to)]
            {
                &&& 0 <= from <= to <= s.len()
                &&& trimmed(s) == s.subrange(from, to)
                &&& forall|i: int| 0 <= i < from ==> is_white_space(#[trigger] s[i])
                &&& forall|i: int| to <= i < s.len() ==> is_white_space(#[trigger] s[i])
                &&& from < to ==> !is_white_space(s[from]) && !is_white_space(s[to - 1])
            },
{
    let from = lemma_without_leading(s);
    let rest = s.skip(from);
    let n = lemma_without_trailing(rest);
    let to = from + n;
    assert(rest.take(n) =~= s.subrange(from, to));
    assert forall|i: int| to <= i < s.len() implies is_white_space(#[trigger] s[i]) by {
        assert(rest[i - from] == s[i]);
    }
    if n > 0 {
        assert(rest[n - 1] == s[to - 1]);
        assert(!is_white_space(s[from])) by {
            assert(from < s.len());
        }
    }
}

/// White space around a text that neither starts nor ends with it is all that trimming takes away.
pub proof fn law_trimming_takes_white_space_alone(s: Seq<char>, from: int, to: int)
    requires
        0 <= from < to <= s.len(),
        forall|i: int| 0 <= i < from ==> is_white_space(#[trigger] s[i]),
        forall|i: int| to <= i < s.len() ==> is_white_space(#[trigger] s[i]),
        !is_white_space(s[from]),
        !is_white_space(s[to - 1]),
    ensures
        trimmed(s) == s.subrange(from, to),
{
    let start = lemma_without_leading(s);
    assert(start == from) by {
        if start < from {
            assert(is_white_space(s[start]));
        } else if from < start {
            assert(is_white_space(s[from]));
        }
    }
    let rest = s.skip(start);
    let n = lemma_without_trailing(rest);
    assert(n == to - from) by {
        if n < to - from {
            assert(is_white_space(rest[to - from - 1]));
            assert(rest[to - from - 1] == s[to - 1]);
        } else if to - from < n {
            assert(rest[n - 1] == s[from + n - 1]);
        }
    }
    assert(rest.take(n) =~= s.subrange(from, to));
}

/// A number is written with decimal digits, the last of them for what is left of it by ten, and
/// without a zero before the others.
pub proof fn law_decimal_is_written_digit_by_digit(n: nat, d: nat)
    requires
        d < 10,
    ensures
        decimal(n).len() > 0,
        forall|i: int| 0 <= i < decimal(n).len() ==> '0' <= #[trigger] decimal(n)[i] <= '9',
        n > 0 ==> decimal(n)[0] != '0',
        n > 0 ==> decimal(10 * n + d) == decimal(n).push((d + '0' as u32) as char),
        decimal(d) == seq![(d + '0' as u32) as char],
    decreases n,
{
    if n >= 10 {
        law_decimal_is_written_digit_by_digit(n / 10, 0);
        let higher = decimal(n / 10);
        assert(decimal(n) == higher.push(digit_char(n % 10)));
        assert forall|i: int| 0 <= i < decimal(n).len() implies '0' <= #[trigger] decimal(n)[i]
            <= '9' by {
            if i < higher.len() {
                assert(decimal(n)[i] == higher[i]);
            }
        }
        assert(decimal(n)[0] == higher[0]);
    }
    if n > 0 {
        assert((10 * n + d) / 10 == n);
        assert((10 * n + d) % 10 == d);
    }
}

/// A number that is written in decimal is read back as itself.
pub proof fn law_decimal_is_read_back(n: nat, max: nat)
    ensures
        digits_value(decimal(n), 10) == Some(n),
        n <= max ==> unsigned_value(decimal(n), 10, max) == Some(n),
        n > max ==> unsigned_value(decimal(n), 10, max) is None,
    decreases n,
{
    law_decimal_is_written_digit_by_digit(n, 0);
    assert(decimal(n)[0] != '+');
    if n < 10 {
        let s = decimal(n);
        assert(s.drop_last() =~= Seq::<char>::empty());
        assert(digits_value(s.drop_last(), 10) == Some(0nat));
        assert(digit_value(s.last(), 10) == Some(n));
    } else {
        law_decimal_is_read_back(n / 10, max);
        let s = decimal(n);
        assert(s.drop_last() =~= decimal(n / 10));
        assert(digit_value(s.last(), 10) == Some(n % 10));
        assert(n / 10 * 10 + n % 10 == n);
    }
}

/// A plus sign may stand before a number, and changes nothing.
pub proof fn law_plus_sign_is_optional(s: Seq<char>, radix: nat, max: nat)
    requires
        s.len() > 0,
        s[0] != '+',
    ensures
        unsigned_value(seq!['+'] + s, radix, max) == unsigned_value(s, radix, max),
{
    assert((seq!['+'] + s).drop_first() =~= s);
}

/// No number is read from an empty text, nor from one with a character that is no digit.
pub proof fn law_no_number_without_digits(s: Seq<char>, radix: nat, max: nat, i: int)
    requires
        2 <= radix <= 36,
    ensures
        s.len() == 0 ==> unsigned_value(s, radix, max) is None,
        0 <= i < s.len() && !(i == 0 && s[0] == '+') && digit_value(s[i], radix) is None
            ==> unsigned_value(s, radix, max) is None,
{
    let digits = unsigned_digits(s);
    if 0 <= i < s.len() && !(i == 0 && s[0] == '+') && digit_value(s[i], radix) is None {
        let k = if s[0] == '+' {
            i - 1
        } else {
            i
        };
        assert(digits[k] == s[i]);
        lemma_bad_digit(digits, radix, k);
    }
}

/// Digits with a character among them that is none stand for no number.
proof fn lemma_bad_digit(s: Seq<char>, radix: nat, i: int)
    requires
        0 <= i < s.len(),
        digit_value(s[i], radix) is None,
    ensures
        digits_value(s, radix) is None,
    decreases s.len(),
{
    if i < s.len() - 1 {
        assert(s.drop_last()[i] == s[i]);
        lemma_bad_digit(s.drop_last(), radix, i);
    }
}

/// The digits are the ten of ASCII and then its letters in either case, as far as the radix goes.
pub proof fn law_digits_count_up(c: char, radix: nat)
    requires
        radix <= 36,
    ensures
        '0' <= c <= '9' && (c as u32 - '0' as u32) < radix ==> digit_value(c, radix) == Some(
            (c as u32 - '0' as u32) as nat,
        ),
        'a' <= c <= 'z' && (c as u32 - 'a' as u32) + 10 < radix ==> digit_value(c, radix) == Some(
            (c as u32 - 'a' as u32 + 10) as nat,
        ),
        'A' <= c <= 'Z' && (c as u32 - 'A' as u32) + 10 < radix ==> digit_value(c, radix) == Some(
            (c as u32 - 'A' as u32 + 10) as nat,
        ),
        digit_value(c, radix) matches Some(v) ==> v < radix && ('0' <= c <= '9' || 'a' <= c <= 'z'
            || 'A' <= c <= 'Z'),
{
}

/// One more digit multiplies what the digits before it stand for by the radix, and adds its own
/// value.
pub proof fn law_one_more_digit(s: Seq<char>, c: char, radix: nat, high: nat, low: nat)
    requires
        digits_value(s, radix) == Some(high),
        digit_value(c, radix) == Some(low),
    ensures
        digits_value(s.push(c), radix) == Some(high * radix + low),
{
    assert(s.push(c).drop_last() =~= s);
}

/// A setting that is not set, or is no number up to the largest, is the default. One that is a
/// number is that number.
pub proof fn law_setting_is_read_or_default(text: String, n: nat, default: nat, max: nat, i: int)
    ensures
        setting(None, default, max) == default,
        text@ == decimal(n) && n <= max ==> setting(Some(text), default, max) == n,
        text@ == decimal(n) && n > max ==> setting(Some(text), default, max) == default,
        text@.len() == 0 ==> setting(Some(text), default, max) == default,
        0 <= i < text@.len() && !('0' <= text@[i] <= '9') && !(i == 0 && text@[i] == '+')
            ==> setting(Some(text), default, max) == default,
{
    law_decimal_is_read_back(n, max);
    law_no_number_without_digits(text@, 10, max, i);
    if 0 <= i < text@.len() && !('0' <= text@[i] <= '9') {
        law_digits_count_up(text@[i], 10);
        assert(digit_value(text@[i], 10) is None);
    }
}

/// Letters of a hexadecimal number count the same in either case, and a number that takes more
/// than 64 bits is none.
pub proof fn law_hex_digits_in_either_case(s: Seq<char>, c: char, v: nat)
    requires
        hex_value(s) == Some(v),
        s.len() > 0,
        s[0] != '0',
        s[0] != '+',
        'a' <= c <= 'f',
    ensures
        ({
            let upper = ((c as u32 - 32) as u32) as char;
            let more = v * 16 + (c as u32 - 'a' as u32 + 10);
            &&& hex_value(s.push(c)) == hex_value(s.push(upper))
            &&& more <= u64::MAX ==> hex_value(s.push(c)) == Some(more as nat)
            &&& more > u64::MAX ==> hex_value(s.push(c)) is None
        }),
{
    let upper = ((c as u32 - 32) as u32) as char;
    assert(s.push(c)[0] == s[0]);
    assert(s.push(upper)[0] == s[0]);
    assert(without_hex_prefix(s.push(c)) == s.push(c));
    assert(without_hex_prefix(s.push(upper)) == s.push(upper));
    assert(s.push(c).drop_last() =~= s);
    assert(s.push(upper).drop_last() =~= s);
}

} // verus!
