//! Sentiment scores.
//!
//! A score is held as the decimal numeral that stands for it in a JSON
//! document.  The numeral is checked once, when the score is made, and
//! copied into queries and responses character for character.

use vstd::prelude::*;
use vstd::string::*;

verus! {

/// A decimal digit.
pub open spec fn is_digit(c: char) -> bool {
    '0' <= c <= '9'
}

/// Every character is a decimal digit.
pub open spec fn all_digits(s: Seq<char>) -> bool {
    forall|i: int| 0 <= i < s.len() ==> is_digit(#[trigger] s[i])
}

/// Nothing, or a minus sign.
pub open spec fn is_sign(s: Seq<char>) -> bool {
    s.len() == 0 || (s.len() == 1 && s[0] == '-')
}

/// One or more digits, with a leading zero only where zero is the whole part.
pub open spec fn is_whole(s: Seq<char>) -> bool {
    s.len() >= 1 && all_digits(s) && (s[0] == '0' ==> s.len() == 1)
}

/// Nothing, or a point followed by one or more digits.
pub open spec fn is_fraction(s: Seq<char>) -> bool {
    s.len() == 0 || (s.len() >= 2 && s[0] == '.' && all_digits(s.skip(1)))
}

/// Nothing, or `e` or `E`, an optional sign, and one or more digits.
pub open spec fn is_exponent(s: Seq<char>) -> bool {
    s.len() == 0 || ((s[0] == 'e' || s[0] == 'E') && {
        let digits = if s.len() >= 2 && (s[1] == '+' || s[1] == '-') {
            s.skip(2)
        } else {
            s.skip(1)
        };
        digits.len() >= 1 && all_digits(digits)
    })
}

/// `s` reads as sign, whole part, fraction and exponent when cut at `a`, `b`
/// and `c`.
pub open spec fn splits_as_number(s: Seq<char>, a: int, b: int, c: int) -> bool {
    &&& 0 <= a <= b <= c <= s.len()
    &&& is_sign(s.subrange(0, a))
    &&& is_whole(s.subrange(a, b))
    &&& is_fraction(s.subrange(b, c))
    &&& is_exponent(s.subrange(c, s.len() as int))
}

/// `s` is a number as JSON writes one.
pub open spec fn is_number(s: Seq<char>) -> bool {
    exists|a: int, b: int, c: int| splits_as_number(s, a, b, c)
}

/// `bytes` holds the characters of `s`, one byte each.
pub open spec fn spells(bytes: Seq<u8>, s: Seq<char>) -> bool {
    &&& bytes.len() == s.len()
    &&& forall|i: int|
        #![trigger s[i]]
        #![trigger bytes[i]]
        0 <= i < s.len() ==> '\0' <= s[i] <= '\u{7f}' && bytes[i] == s[i] as u8
}

/// The digits of `s` from `from` on stop at `to`, and not before.
pub open spec fn digit_run(s: Seq<char>, from: int, to: int) -> bool {
    &&& 0 <= from <= to <= s.len()
    &&& forall|i: int| from <= i < to ==> is_digit(#[trigger] s[i])
    &&& to < s.len() ==> !is_digit(s[to])
}

/// A sentiment score: a number in decimal notation.
pub struct Score {
    text: String,
}

impl View for Score {
    type V = Seq<char>;

    closed spec fn view(&self) -> Seq<char> {
        self.text@
    }
}

impl Score {
    #[verifier::type_invariant]
    spec fn well_formed(self) -> bool {
        is_number(self.text@)
    }

    /// Accepts exactly the texts that are numbers, and keeps them unchanged.
    pub fn parse(text: &str) -> (score: Option<Score>)
        ensures
            score is Some <==> is_number(text@),
            score matches Some(s) ==> s@ == text@,
    {
        if !text.is_ascii() {
            proof {
                if is_number(text@) {
                    lemma_number_is_ascii(text@);
                }
            }
            return None;
        }
        let bytes = text.as_bytes();
        proof {
            broadcast use is_ascii_spec_bytes;

        }
        assert(spells(bytes@, text@));
        if recognize(bytes, Ghost(text@)) {
            Some(Score { text: String::from_str(text) })
        } else {
            None
        }
    }

    /// The numeral of the score.
    pub fn as_str(&self) -> (text: &str)
        ensures
            text@ == self@,
            is_number(text@),
    {
        proof {
            use_type_invariant(self);
        }
        self.text.as_str()
    }

    /// A second copy of the score.
    pub fn duplicate(&self) -> (copy: Score)
        ensures
            copy@ == self@,
    {
        proof {
            use_type_invariant(self);
        }
        Score { text: self.text.clone() }
    }
}

/// Every character of a number is one of `0`-`9`, `-`, `+`, `.`, `e`, `E`.
pub proof fn lemma_number_is_ascii(s: Seq<char>)
    requires
        is_number(s),
    ensures
        forall|i: int| 0 <= i < s.len() ==> '\0' <= #[trigger] s[i] <= '\u{7f}',
{
    let (a, b, c) = choose|a: int, b: int, c: int| splits_as_number(s, a, b, c);
    assert forall|i: int| 0 <= i < s.len() implies '\0' <= #[trigger] s[i] <= '\u{7f}' by {
        if i < a {
            assert(s.subrange(0, a)[i] == s[i]);
        } else if i < b {
            assert(s.subrange(a, b)[i - a] == s[i]);
        } else if i < c {
            let fraction = s.subrange(b, c);
            assert(fraction[i - b] == s[i]);
            if i > b {
                assert(fraction.skip(1)[i - b - 1] == s[i]);
            }
        } else {
            let exponent = s.subrange(c, s.len() as int);
            assert(exponent[i - c] == s[i]);
            if i == c + 1 {
                if !(exponent[1] == '+' || exponent[1] == '-') {
                    assert(exponent.skip(1)[0] == s[i]);
                }
            } else if i > c + 1 {
                if exponent[1] == '+' || exponent[1] == '-' {
                    assert(exponent.skip(2)[i - c - 2] == s[i]);
                } else {
                    assert(exponent.skip(1)[i - c - 1] == s[i]);
                }
            }
        }
    }
}

/// Whatever way a number splits, its sign ends where the text's leading
/// minus ends and its whole part ends where the first run of digits ends.
proof fn lemma_whole_part_is_forced(s: Seq<char>, a: int, b: int, c: int, sign: int, whole: int)
    requires
        splits_as_number(s, a, b, c),
        sign == (if s.len() > 0 && s[0] == '-' {
            1int
        } else {
            0int
        }),
        digit_run(s, sign, whole),
    ensures
        a == sign,
        b == whole,
        whole > sign,
        s[sign] == '0' ==> whole == sign + 1,
{
    let head = s.subrange(0, a);
    let digits = s.subrange(a, b);
    assert(digits[0] == s[a]);
    if a > 0 {
        assert(head[0] == s[0]);
    }
    assert(a == sign);
    assert forall|i: int| a <= i < b implies is_digit(s[i]) by {
        assert(digits[i - a] == s[i]);
    }
    if b < whole {
        if b < c {
            assert(s.subrange(b, c)[0] == s[b]);
        } else {
            assert(s.subrange(c, s.len() as int)[0] == s[b]);
        }
    }
    assert(b == whole);
}

/// Whatever way a number splits, its fraction is empty where no point
/// follows the whole part, and ends with the digits after the point
/// otherwise.
proof fn lemma_fraction_is_forced(s: Seq<char>, a: int, b: int, c: int, end: int)
    requires
        splits_as_number(s, a, b, c),
        b < s.len() && s[b] == '.' ==> digit_run(s, b + 1, end),
        !(b < s.len() && s[b] == '.') ==> end == b,
    ensures
        c == end,
        b < s.len() && s[b] == '.' ==> end > b + 1,
{
    let fraction = s.subrange(b, c);
    let exponent = s.subrange(c, s.len() as int);
    if b < s.len() && s[b] == '.' {
        if c == b {
            assert(exponent[0] == s[b]);
        }
        assert(c >= b + 2);
        assert forall|i: int| b + 1 <= i < c implies is_digit(s[i]) by {
            assert(fraction.skip(1)[i - b - 1] == s[i]);
        }
        if c < end {
            assert(exponent[0] == s[c]);
        }
        assert(c == end);
    } else {
        if c > b {
            assert(fraction[0] == s[b]);
        }
    }
}

/// The first position at or after `from` that holds no digit.
fn scan_digits(bytes: &[u8], from: usize, Ghost(s): Ghost<Seq<char>>) -> (to: usize)
    requires
        spells(bytes@, s),
        from <= bytes@.len(),
    ensures
        digit_run(s, from as int, to as int),
{
    let mut to = from;
    while to < bytes.len() && 48 <= bytes[to] && bytes[to] <= 57
        invariant
            spells(bytes@, s),
            from <= to <= bytes@.len(),
            forall|i: int| from <= i < to ==> is_digit(#[trigger] s[i]),
        decreases bytes@.len() - to,
    {
        to += 1;
    }
    to
}

/// Decides whether the text spelled by `bytes` is a number.
fn recognize(bytes: &[u8], Ghost(s): Ghost<Seq<char>>) -> (ok: bool)
    requires
        spells(bytes@, s),
    ensures
        ok == is_number(s),
{
    let n = bytes.len();
    let sign: usize = if n > 0 && bytes[0] == 45 {
        1
    } else {
        0
    };
    let whole = scan_digits(bytes, sign, Ghost(s));
    if whole == sign || (bytes[sign] == 48 && whole > sign + 1) {
        proof {
            if is_number(s) {
                let (a, b, c) = choose|a: int, b: int, c: int| splits_as_number(s, a, b, c);
                lemma_whole_part_is_forced(s, a, b, c, sign as int, whole as int);
            }
        }
        return false;
    }
    let mut fraction = whole;
    if whole < n && bytes[whole] == 46 {
        fraction = scan_digits(bytes, whole + 1, Ghost(s));
        if fraction == whole + 1 {
            proof {
                if is_number(s) {
                    let (a, b, c) = choose|a: int, b: int, c: int| splits_as_number(s, a, b, c);
                    lemma_whole_part_is_forced(s, a, b, c, sign as int, whole as int);
                    lemma_fraction_is_forced(s, a, b, c, fraction as int);
                }
            }
            return false;
        }
    }
    let mut ok = true;
    let mut digits = fraction;
    let mut end = fraction;
    if fraction < n {
        if bytes[fraction] == 101 || bytes[fraction] == 69 {
            digits = if fraction + 1 < n && (bytes[fraction + 1] == 43 || bytes[fraction + 1] == 45) {
                fraction + 2
            } else {
                fraction + 1
            };
            end = scan_digits(bytes, digits, Ghost(s));
            ok = end == n && end > digits;
        } else {
            ok = false;
        }
    }
    proof {
        let exponent = s.subrange(fraction as int, n as int);
        if ok {
            assert(is_sign(s.subrange(0, sign as int)));
            assert(is_whole(s.subrange(sign as int, whole as int)));
            assert(is_fraction(s.subrange(whole as int, fraction as int))) by {
                let part = s.subrange(whole as int, fraction as int);
                if part.len() > 0 {
                    assert forall|i: int| 0 <= i < part.skip(1).len() implies is_digit(
                        #[trigger] part.skip(1)[i],
                    ) by {
                        assert(part.skip(1)[i] == s[whole + 1 + i]);
                    }
                }
            }
            assert(is_exponent(exponent)) by {
                if exponent.len() > 0 {
                    let tail = exponent.skip(digits - fraction);
                    assert forall|i: int| 0 <= i < tail.len() implies is_digit(#[trigger] tail[i]) by {
                        assert(tail[i] == s[digits + i]);
                    }
                    assert(exponent[0] == s[fraction as int]);
                    if exponent.len() >= 2 {
                        assert(exponent[1] == s[fraction + 1]);
                    }
                }
            }
            assert(splits_as_number(s, sign as int, whole as int, fraction as int));
        } else if is_number(s) {
            let (a, b, c) = choose|a: int, b: int, c: int| splits_as_number(s, a, b, c);
            lemma_whole_part_is_forced(s, a, b, c, sign as int, whole as int);
            lemma_fraction_is_forced(s, a, b, c, fraction as int);
            assert(exponent[0] == s[fraction as int]);
            if exponent.len() >= 2 {
                assert(exponent[1] == s[fraction + 1]);
            }
            let tail = exponent.skip(digits - fraction);
            assert(tail.len() >= 1);
            assert forall|i: int| digits <= i < n implies is_digit(s[i]) by {
                assert(tail[i - digits] == s[i]);
            }
            assert(false);
        }
    }
    ok
}

} // verus!
