//! The texts that stand for a floating-point number.
//!
//! ```text
//! Float  ::= Sign? ( 'inf' | 'infinity' | 'nan' | Number )
//! Number ::= ( Digit+ | Digit+ '.' Digit* | Digit* '.' Digit+ ) Exp?
//! Exp    ::= 'e' Sign? Digit+
//! Sign   ::= [+-]
//! Digit  ::= [0-9]
//! ```
//!
//! Letters count in either case. Nothing may stand before or after the number,
//! not even white space.

use vstd::prelude::*;
use vstd::string::*;

verus! {

/// A decimal digit.
pub open spec fn is_digit(c: char) -> bool {
    '0' <= c && c <= '9'
}

/// A plus or minus sign.
pub open spec fn is_sign(c: char) -> bool {
    c == '+' || c == '-'
}

/// The letter `lower`, in lower or in upper case.
pub open spec fn is_letter(c: char, lower: char) -> bool {
    c == lower || c as int + 32 == lower as int
}

/// The position after the longest run of digits that starts at `from`.
pub open spec fn digits_end(s: Seq<char>, from: int) -> int
    decreases s.len() - from,
{
    if 0 <= from < s.len() && is_digit(s[from]) {
        digits_end(s, from + 1)
    } else {
        from
    }
}

/// The position after the sign at `from`, or `from` itself where no sign
/// stands there.
pub open spec fn after_sign(s: Seq<char>, from: int) -> int {
    if 0 <= from < s.len() && is_sign(s[from]) {
        from + 1
    } else {
        from
    }
}

/// From `from` to the end, `s` spells `word` (given in lower case), in letters
/// of either case.
pub open spec fn spells(s: Seq<char>, from: int, word: Seq<char>) -> bool {
    s.len() - from == word.len() && forall|i: int|
        0 <= i < word.len() ==> is_letter(#[trigger] s[from + i], word[i])
}

/// From `from` to the end, `s` is an exponent: `e`, an optional sign, and at
/// least one digit.
pub open spec fn is_exponent(s: Seq<char>, from: int) -> bool {
    let start = after_sign(s, from + 1);
    0 <= from < s.len() && is_letter(s[from], 'e') && start < s.len() && digits_end(s, start)
        == s.len()
}

/// From `from` to the end, `s` is a decimal number: digits with at most one
/// point among them and at least one digit, then an optional exponent.
pub open spec fn is_decimal(s: Seq<char>, from: int) -> bool {
    let int_end = digits_end(s, from);
    let has_point = int_end < s.len() && s[int_end] == '.';
    let frac_end = if has_point {
        digits_end(s, int_end + 1)
    } else {
        int_end
    };
    let digits = if has_point {
        frac_end - from - 1
    } else {
        frac_end - from
    };
    digits >= 1 && (frac_end == s.len() || is_exponent(s, frac_end))
}

/// From `from` to the end, `s` names an infinity or a value that is no number.
pub open spec fn is_special(s: Seq<char>, from: int) -> bool {
    spells(s, from, seq!['i', 'n', 'f']) || spells(
        s,
        from,
        seq!['i', 'n', 'f', 'i', 'n', 'i', 't', 'y'],
    ) || spells(s, from, seq!['n', 'a', 'n'])
}

/// The text stands for a floating-point number: an optional sign, then a
/// decimal number or the name of a special value.
pub open spec fn is_float_text(s: Seq<char>) -> bool {
    let start = after_sign(s, 0);
    is_special(s, start) || is_decimal(s, start)
}

/// The digits of a run lie inside the text, and every character of the run is
/// a digit.
pub proof fn lemma_digits_end(s: Seq<char>, from: int)
    requires
        0 <= from <= s.len(),
    ensures
        from <= digits_end(s, from) <= s.len(),
        forall|i: int| from <= i < digits_end(s, from) ==> is_digit(#[trigger] s[i]),
        digits_end(s, from) < s.len() ==> !is_digit(s[digits_end(s, from)]),
    decreases s.len() - from,
{
    if from < s.len() && is_digit(s[from]) {
        lemma_digits_end(s, from + 1);
    }
}

/// A text that stands for a floating-point number holds ASCII characters only.
pub proof fn lemma_float_text_is_ascii(s: Seq<char>)
    requires
        is_float_text(s),
    ensures
        vstd::utf8::is_ascii_chars(s),
{
    let start = after_sign(s, 0);
    assert forall|i: int| 0 <= i < s.len() implies '\0' <= #[trigger] s[i] <= '\u{7f}' by {
        if i < start {
        } else if is_special(s, start) {
            let k = i - start;
            assert(s[start + k] == s[i]);
        } else {
            let int_end = digits_end(s, start);
            lemma_digits_end(s, start);
            let has_point = int_end < s.len() && s[int_end] == '.';
            if has_point {
                lemma_digits_end(s, int_end + 1);
            }
            let frac_end = if has_point {
                digits_end(s, int_end + 1)
            } else {
                int_end
            };
            if frac_end < s.len() {
                let exp_start = after_sign(s, frac_end + 1);
                lemma_digits_end(s, exp_start);
            }
        }
    }
}

/// The character at `i` of an ASCII text, as a byte.
fn char_at(s: &str, i: usize) -> (b: u8)
    requires
        s.is_ascii(),
        i < s@.len(),
    ensures
        b as int == s@[i as int] as int,
        b < 128,
{
    let b = s.get_ascii(i);
    proof {
        let c = s@[i as int];
        assert('\0' <= c <= '\u{7f}');
        assert(c as u8 as int == c as int);
    }
    b
}

/// The position after the longest run of digits that starts at `from`.
fn scan_digits(s: &str, len: usize, from: usize) -> (end: usize)
    requires
        s.is_ascii(),
        len == s@.len(),
        from <= len,
    ensures
        end == digits_end(s@, from as int),
        from <= end <= len,
{
    let mut end = from;
    while end < len
        invariant
            s.is_ascii(),
            len == s@.len(),
            from <= end <= len,
            digits_end(s@, from as int) == digits_end(s@, end as int),
        decreases len - end,
    {
        let b = char_at(s, end);
        if 48 <= b && b <= 57 {
            end = end + 1;
        } else {
            return end;
        }
    }
    end
}

/// The position after the sign at `from`, or `from` itself where no sign
/// stands there.
fn skip_sign(s: &str, len: usize, from: usize) -> (end: usize)
    requires
        s.is_ascii(),
        len == s@.len(),
        from <= len,
    ensures
        end == after_sign(s@, from as int),
        from <= end <= len,
{
    if from < len {
        let b = char_at(s, from);
        if b == 43 || b == 45 {
            return from + 1;
        }
    }
    from
}

/// Whether `s` spells `word` from `from` to its end, in letters of either case.
fn spells_word(s: &str, len: usize, from: usize, word: &str) -> (ok: bool)
    requires
        s.is_ascii(),
        word.is_ascii(),
        len == s@.len(),
        from <= len,
    ensures
        ok == spells(s@, from as int, word@),
{
    let n = word.unicode_len();
    if len - from != n {
        return false;
    }
    let mut i: usize = 0;
    while i < n
        invariant
            s.is_ascii(),
            word.is_ascii(),
            len == s@.len(),
            n == word@.len(),
            len - from == n,
            i <= n,
            forall|k: int| 0 <= k < i ==> is_letter(#[trigger] s@[from + k], word@[k]),
        decreases n - i,
    {
        let b = char_at(s, from + i);
        let w = char_at(word, i);
        if !(b == w || (b < 96 && b + 32 == w)) {
            proof {
                assert(!is_letter(s@[from + i], word@[i as int]));
            }
            return false;
        }
        i = i + 1;
    }
    true
}

/// Whether `s` is an exponent from `from` to its end.
fn exponent_at(s: &str, len: usize, from: usize) -> (ok: bool)
    requires
        s.is_ascii(),
        len == s@.len(),
        from < len,
    ensures
        ok == is_exponent(s@, from as int),
{
    let b = char_at(s, from);
    if !(b == 101 || b == 69) {
        return false;
    }
    let start = skip_sign(s, len, from + 1);
    if start >= len {
        return false;
    }
    scan_digits(s, len, start) == len
}

/// Whether `s` is a decimal number from `from` to its end.
fn decimal_at(s: &str, len: usize, from: usize) -> (ok: bool)
    requires
        s.is_ascii(),
        len == s@.len(),
        from <= len,
    ensures
        ok == is_decimal(s@, from as int),
{
    let int_end = scan_digits(s, len, from);
    let has_point = int_end < len && char_at(s, int_end) == 46;
    let frac_end = if has_point {
        scan_digits(s, len, int_end + 1)
    } else {
        int_end
    };
    let digits = if has_point {
        frac_end - from - 1
    } else {
        frac_end - from
    };
    if digits < 1 {
        return false;
    }
    if frac_end == len {
        return true;
    }
    exponent_at(s, len, frac_end)
}

/// Whether the text stands for a floating-point number.
pub fn is_float(s: &str) -> (ok: bool)
    ensures
        ok == is_float_text(s@),
{
    if !s.is_ascii() {
        proof {
            if is_float_text(s@) {
                lemma_float_text_is_ascii(s@);
            }
        }
        return false;
    }
    let len = s.unicode_len();
    let start = skip_sign(s, len, 0);
    proof {
        reveal_strlit("inf");
        reveal_strlit("infinity");
        reveal_strlit("nan");
        assert("inf"@ =~= seq!['i', 'n', 'f']);
        assert("infinity"@ =~= seq!['i', 'n', 'f', 'i', 'n', 'i', 't', 'y']);
        assert("nan"@ =~= seq!['n', 'a', 'n']);
    }
    if spells_word(s, len, start, "inf") || spells_word(s, len, start, "infinity") || spells_word(
        s,
        len,
        start,
        "nan",
    ) {
        return true;
    }
    decimal_at(s, len, start)
}

} // verus!
