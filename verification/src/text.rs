//! Text as sequences of characters: decimal numerals and the few string
//! operations the rest of the crate is built from.

use vstd::prelude::*;
use vstd::string::StrSliceExecFns;
use vstd::string::StringExecFns;
use regex::Regex;

verus! {

/// The character of one decimal digit.
pub open spec fn digit_char(d: nat) -> char
    recommends
        d < 10,
{
    if d == 0 {
        '0'
    } else if d == 1 {
        '1'
    } else if d == 2 {
        '2'
    } else if d == 3 {
        '3'
    } else if d == 4 {
        '4'
    } else if d == 5 {
        '5'
    } else if d == 6 {
        '6'
    } else if d == 7 {
        '7'
    } else if d == 8 {
        '8'
    } else {
        '9'
    }
}

/// The decimal numeral of `n`: no sign, no leading zero, `"0"` for zero.
pub open spec fn decimal(n: nat) -> Seq<char>
    decreases n,
{
    if n < 10 {
        seq![digit_char(n)]
    } else {
        decimal(n / 10).push(digit_char(n % 10))
    }
}

/// The decimal numeral of an integer, with `-` before a negative one.
pub open spec fn signed_decimal(n: int) -> Seq<char> {
    if n < 0 {
        seq!['-'] + decimal((-n) as nat)
    } else {
        decimal(n as nat)
    }
}

/// Whether `c` is one of `0` to `9`.
pub open spec fn is_digit(c: char) -> bool {
    '0' <= c <= '9'
}

/// The number that a digit stands for.
pub open spec fn digit_value(c: char) -> nat
    recommends
        is_digit(c),
{
    (c as nat - '0' as nat) as nat
}

/// Whether `s` holds digits only.
pub open spec fn all_digits(s: Seq<char>) -> bool {
    forall|i: int| 0 <= i < s.len() ==> is_digit(#[trigger] s[i])
}

/// The number that a run of digits spells.
pub open spec fn digits_value(s: Seq<char>) -> nat
    decreases s.len(),
{
    if s.len() == 0 {
        0
    } else {
        digits_value(s.drop_last()) * 10 + digit_value(s.last())
    }
}

/// The integer that `s` spells: an optional `+` or `-`, then one digit or
/// more, and nothing else. `None` for any other text.
pub open spec fn parse_integer(s: Seq<char>) -> Option<int> {
    let negative = s.len() > 0 && s[0] == '-';
    let signed = s.len() > 0 && (s[0] == '-' || s[0] == '+');
    let digits = if signed {
        s.skip(1)
    } else {
        s
    };
    if digits.len() == 0 || !all_digits(digits) {
        None
    } else if negative {
        Some(-(digits_value(digits) as int))
    } else {
        Some(digits_value(digits) as int)
    }
}

/// The digit as text.
pub(crate) fn digit_text(d: u64) -> (r: &'static str)
    requires
        d < 10,
    ensures
        r@ == seq![digit_char(d as nat)],
{
    proof {
        reveal_strlit("0");
        reveal_strlit("1");
        reveal_strlit("2");
        reveal_strlit("3");
        reveal_strlit("4");
        reveal_strlit("5");
        reveal_strlit("6");
        reveal_strlit("7");
        reveal_strlit("8");
        reveal_strlit("9");
    }
    let r = if d == 0 {
        "0"
    } else if d == 1 {
        "1"
    } else if d == 2 {
        "2"
    } else if d == 3 {
        "3"
    } else if d == 4 {
        "4"
    } else if d == 5 {
        "5"
    } else if d == 6 {
        "6"
    } else if d == 7 {
        "7"
    } else if d == 8 {
        "8"
    } else {
        "9"
    };
    assert(r@ =~= seq![digit_char(d as nat)]);
    r
}

/// The number written in decimal.
pub fn natural_string(n: u64) -> (r: String)
    ensures
        r@ == decimal(n as nat),
    decreases n,
{
    if n < 10 {
        String::from_str(digit_text(n))
    } else {
        let mut out = natural_string(n / 10);
        out.append(digit_text(n % 10));
        assert(out@ =~= decimal(n as nat));
        out
    }
}

proof fn lemma_decimal_of_digits(s: Seq<char>, k: int)
    requires
        all_digits(s),
        0 <= k <= s.len(),
        forall|j: int| 0 <= j < k ==> s[j] == '0',
        k < s.len() ==> s[k] != '0',
    ensures
        digits_value(s) == 0 <==> k == s.len(),
        decimal(digits_value(s)) == if k == s.len() {
            seq!['0']
        } else {
            s.skip(k)
        },
    decreases s.len(),
{
    if s.len() == 0 {
        assert(decimal(0) =~= seq!['0']);
    } else {
        let head = s.drop_last();
        let last = s.last();
        assert(is_digit(last));
        assert(digit_char(digit_value(last)) == last);
        assert forall|j: int| 0 <= j < head.len() implies is_digit(#[trigger] head[j]) by {
            assert(head[j] == s[j]);
        }
        let n = digits_value(s);
        assert(n == digits_value(head) * 10 + digit_value(last));
        if k >= s.len() - 1 {
            lemma_decimal_of_digits(head, head.len() as int);
            assert(n == digit_value(last));
            if k == s.len() {
                assert(decimal(0) =~= seq!['0']);
            } else {
                assert(decimal(n) =~= s.skip(k));
            }
        } else {
            lemma_decimal_of_digits(head, k);
            assert(n >= 10);
            assert(n / 10 == digits_value(head));
            assert(n % 10 == digit_value(last));
            assert(head.skip(k).push(last) =~= s.skip(k));
        }
    }
}

/// The integer that the text spells, written in decimal: without `+`,
/// without leading zeros, and with `-` where it is below zero. `None`
/// for a text that spells no integer.
pub fn integer_text(text: &str) -> (r: Option<String>)
    ensures
        match r {
            Some(written) => parse_integer(text@) is Some && written@ == signed_decimal(
                parse_integer(text@)->0,
            ),
            None => parse_integer(text@) is None,
        },
{
    let n = text.unicode_len();
    if n == 0 {
        return None;
    }
    let first = text.get_char(0);
    let negative = first == '-';
    let start: usize = if first == '-' || first == '+' {
        1
    } else {
        0
    };
    if start == n {
        return None;
    }
    let ghost digits = text@.skip(start as int);
    let ghost spelled = if !all_digits(digits) {
        None::<int>
    } else if negative {
        Some(-(digits_value(digits) as int))
    } else {
        Some(digits_value(digits) as int)
    };
    assert(text@.skip(0) =~= text@);
    assert(parse_integer(text@) == spelled);
    let mut i: usize = start;
    while i < n
        invariant
            start <= i <= n,
            n == text@.len(),
            digits == text@.skip(start as int),
            parse_integer(text@) == spelled,
            !all_digits(digits) ==> spelled is None,
            forall|j: int| 0 <= j < i - start ==> is_digit(#[trigger] digits[j]),
        decreases n - i,
    {
        let c = text.get_char(i);
        if !('0' <= c && c <= '9') {
            assert(!is_digit(digits[i - start]));
            return None;
        }
        i = i + 1;
    }
    assert(all_digits(digits));
    let mut k: usize = start;
    while k < n && text.get_char(k) == '0'
        invariant
            start <= k <= n,
            n == text@.len(),
            digits == text@.skip(start as int),
            forall|j: int| 0 <= j < k - start ==> digits[j] == '0',
        decreases n - k,
    {
        k = k + 1;
    }
    proof {
        if k < n {
            assert(digits[k - start] == text@[k as int]);
        }
        assert forall|j: int| 0 <= j < k - start implies digits[j] == '0' by {
            assert(digits[j] == text@[j + start]);
        }
        lemma_decimal_of_digits(digits, k - start);
        reveal_strlit("0");
        reveal_strlit("-");
        assert("0"@ =~= seq!['0']);
        assert("-"@ =~= seq!['-']);
    }
    if k == n {
        return Some(String::from_str("0"));
    }
    let rest = text.substring_char(k, n);
    assert(rest@ =~= digits.skip(k - start));
    if negative {
        let mut out = String::from_str("-");
        out.append(rest);
        Some(out)
    } else {
        Some(String::from_str(rest))
    }
}

/// Whether `c` is white space: a character with the Unicode property
/// `White_Space`.
pub open spec fn is_white_space(c: char) -> bool {
    ||| '\u{9}' <= c <= '\u{d}'
    ||| c == ' '
    ||| c == '\u{85}'
    ||| c == '\u{a0}'
    ||| c == '\u{1680}'
    ||| '\u{2000}' <= c <= '\u{200a}'
    ||| c == '\u{2028}'
    ||| c == '\u{2029}'
    ||| c == '\u{202f}'
    ||| c == '\u{205f}'
    ||| c == '\u{3000}'
}

/// `s` without the white space it starts with.
pub open spec fn trim_start(s: Seq<char>) -> Seq<char>
    decreases s.len(),
{
    if s.len() > 0 && is_white_space(s[0]) {
        trim_start(s.skip(1))
    } else {
        s
    }
}

/// `s` without the white space it ends with.
pub open spec fn trim_end(s: Seq<char>) -> Seq<char>
    decreases s.len(),
{
    if s.len() > 0 && is_white_space(s.last()) {
        trim_end(s.drop_last())
    } else {
        s
    }
}

/// `s` without the white space at either end.
pub open spec fn trimmed(s: Seq<char>) -> Seq<char> {
    trim_end(trim_start(s))
}

pub fn is_white_space_char(c: char) -> (r: bool)
    ensures
        r == is_white_space(c),
{
    ('\u{9}' <= c && c <= '\u{d}') || c == ' ' || c == '\u{85}' || c == '\u{a0}' || c
        == '\u{1680}' || ('\u{2000}' <= c && c <= '\u{200a}') || c == '\u{2028}' || c
        == '\u{2029}' || c == '\u{202f}' || c == '\u{205f}' || c == '\u{3000}'
}

proof fn lemma_trim_start(s: Seq<char>, k: int)
    requires
        0 <= k <= s.len(),
        forall|j: int| 0 <= j < k ==> is_white_space(s[j]),
        k < s.len() ==> !is_white_space(s[k]),
    ensures
        trim_start(s) == s.skip(k),
    decreases k,
{
    if k == 0 {
        assert(s.skip(0) =~= s);
    } else {
        let rest = s.skip(1);
        assert forall|j: int| 0 <= j < k - 1 implies is_white_space(rest[j]) by {
            assert(rest[j] == s[j + 1]);
        }
        lemma_trim_start(rest, k - 1);
        assert(rest.skip(k - 1) =~= s.skip(k));
    }
}

proof fn lemma_trim_end(s: Seq<char>, k: int)
    requires
        0 <= k <= s.len(),
        forall|j: int| k <= j < s.len() ==> is_white_space(s[j]),
        k > 0 ==> !is_white_space(s[k - 1]),
    ensures
        trim_end(s) == s.take(k),
    decreases s.len() - k,
{
    if k == s.len() {
        assert(s.take(k) =~= s);
    } else {
        let rest = s.drop_last();
        lemma_trim_end(rest, k);
        assert(rest.take(k) =~= s.take(k));
    }
}

/// The text without the white space at either end.
pub fn trim(text: &str) -> (r: String)
    ensures
        r@ == trimmed(text@),
{
    let n = text.unicode_len();
    let mut start: usize = 0;
    while start < n && is_white_space_char(text.get_char(start))
        invariant
            n == text@.len(),
            start <= n,
            forall|j: int| 0 <= j < start ==> is_white_space(text@[j]),
        decreases n - start,
    {
        start = start + 1;
    }
    let mut end: usize = n;
    while end > start && is_white_space_char(text.get_char(end - 1))
        invariant
            n == text@.len(),
            start <= end <= n,
            forall|j: int| end <= j < n ==> is_white_space(text@[j]),
        decreases end,
    {
        end = end - 1;
    }
    proof {
        lemma_trim_start(text@, start as int);
        let tail = text@.skip(start as int);
        assert forall|j: int| end - start <= j < tail.len() implies is_white_space(tail[j]) by {
            assert(tail[j] == text@[j + start]);
        }
        if end > start {
            assert(tail[end - start - 1] == text@[end - 1]);
        }
        lemma_trim_end(tail, end - start);
        assert(tail.take(end - start) =~= text@.subrange(start as int, end as int));
    }
    String::from_str(text.substring_char(start, end))
}

/// Whether two texts are the same.
pub fn text_eq(a: &str, b: &str) -> (r: bool)
    ensures
        r == (a@ == b@),
{
    let x = String::from_str(a);
    let y = String::from_str(b);
    x == y
}

/// `s` with each run of white space replaced by one space.
pub open spec fn collapsed(s: Seq<char>) -> Seq<char>
    decreases s.len(),
{
    if s.len() == 0 {
        Seq::empty()
    } else if !is_white_space(s.last()) {
        collapsed(s.drop_last()).push(s.last())
    } else if s.len() >= 2 && is_white_space(s[s.len() - 2]) {
        collapsed(s.drop_last())
    } else {
        collapsed(s.drop_last()).push(' ')
    }
}

/// The pattern of a run of white space.
pub open spec fn white_space_run() -> Seq<char> {
    "\\s+"@
}

/// `Regex::replace_all` of regex, on the pattern compiled by `Regex::new`:
/// with the pattern `\s+` and a single space as the replacement, every
/// run of characters with the Unicode property `White_Space`, taken as
/// long as it goes, is replaced by one space, and all else is kept.
#[verifier::external_body]
fn replace_all(pattern: &str, text: &str, replacement: &str) -> (r: String)
    requires
        pattern@ == white_space_run(),
        replacement@ == seq![' '],
    ensures
        r@ == collapsed(text@),
{
    Regex::new(pattern).unwrap().replace_all(text, replacement).into_owned()
}

/// The text with each run of white space replaced by one space.
pub fn collapse_white_space(text: &str) -> (r: String)
    ensures
        r@ == collapsed(text@),
{
    proof {
        reveal_strlit(" ");
        assert(" "@ =~= seq![' ']);
    }
    replace_all("\\s+", text, " ")
}

/// The position behind the digits that stand at `i` and after.
pub open spec fn digits_end(s: Seq<char>, i: int) -> int
    decreases s.len() - i,
{
    if 0 <= i < s.len() && is_digit(s[i]) {
        digits_end(s, i + 1)
    } else {
        i
    }
}

/// The position behind a sign `+` or `-` that stands at `i`.
pub open spec fn sign_end(s: Seq<char>, i: int) -> int {
    if 0 <= i < s.len() && (s[i] == '+' || s[i] == '-') {
        i + 1
    } else {
        i
    }
}

/// Whether `c` is the small letter `m` or its capital.
pub open spec fn is_letter(c: char, m: char) -> bool {
    c == m || c as int + 32 == m as int
}

/// Whether `s` from `i` to its end is `word`, in small or capital letters.
pub open spec fn is_word(s: Seq<char>, i: int, word: Seq<char>) -> bool {
    &&& s.len() - i == word.len()
    &&& forall|j: int| 0 <= j < word.len() ==> is_letter(#[trigger] s[i + j], word[j])
}

/// Whether `s` is written as a decimal floating-point number: an optional
/// sign, then `inf`, `infinity` or `nan` in any case, or digits with at
/// most one point among them, at least one digit in all, and optionally
/// an exponent of `e` or `E`, an optional sign and one digit or more.
pub open spec fn is_numeric(s: Seq<char>) -> bool {
    let start = sign_end(s, 0);
    let whole = digits_end(s, start);
    let dotted = whole < s.len() && s[whole] == '.';
    let fraction = if dotted {
        digits_end(s, whole + 1)
    } else {
        whole
    };
    let digits = if dotted {
        fraction - start - 1
    } else {
        fraction - start
    };
    let exponent = sign_end(s, fraction + 1);
    ||| is_word(s, start, "inf"@)
    ||| is_word(s, start, "infinity"@)
    ||| is_word(s, start, "nan"@)
    ||| (digits >= 1 && (fraction == s.len() || ((s[fraction] == 'e' || s[fraction] == 'E')
        && digits_end(s, exponent) > exponent && digits_end(s, exponent) == s.len())))
}

fn skip_digits(text: &str, from: usize) -> (r: usize)
    requires
        from <= text@.len(),
    ensures
        r == digits_end(text@, from as int),
        from <= r <= text@.len(),
{
    let n = text.unicode_len();
    let mut i: usize = from;
    while i < n && '0' <= text.get_char(i) && text.get_char(i) <= '9'
        invariant
            n == text@.len(),
            from <= i <= n,
            digits_end(text@, i as int) == digits_end(text@, from as int),
        decreases n - i,
    {
        i = i + 1;
    }
    i
}

fn skip_sign(text: &str, from: usize) -> (r: usize)
    requires
        from <= text@.len(),
    ensures
        r == sign_end(text@, from as int),
        from <= r <= text@.len(),
{
    if from < text.unicode_len() && (text.get_char(from) == '+' || text.get_char(from) == '-') {
        from + 1
    } else {
        from
    }
}

fn matches_word(text: &str, from: usize, word: &str) -> (r: bool)
    requires
        from <= text@.len(),
        forall|j: int| 0 <= j < word@.len() ==> 'a' <= #[trigger] word@[j] <= 'z',
    ensures
        r == is_word(text@, from as int, word@),
{
    let n = text.unicode_len();
    let m = word.unicode_len();
    if n - from != m {
        return false;
    }
    let mut j: usize = 0;
    while j < m
        invariant
            j <= m,
            from <= n,
            n == text@.len(),
            m == word@.len(),
            n - from == m,
            forall|k: int| 0 <= k < word@.len() ==> 'a' <= #[trigger] word@[k] <= 'z',
            forall|k: int| 0 <= k < j ==> is_letter(#[trigger] text@[from + k], word@[k]),
        decreases m - j,
    {
        let c = text.get_char(from + j);
        let w = word.get_char(j);
        if !(c == w || c as u32 + 32 == w as u32) {
            assert(!is_letter(text@[from + j], word@[j as int]));
            return false;
        }
        j = j + 1;
    }
    true
}

/// Whether the text is written as a decimal floating-point number.
pub fn is_numeric_text(text: &str) -> (r: bool)
    ensures
        r == is_numeric(text@),
{
    proof {
        reveal_strlit("inf");
        reveal_strlit("infinity");
        reveal_strlit("nan");
    }
    let n = text.unicode_len();
    let start = skip_sign(text, 0);
    if matches_word(text, start, "inf") || matches_word(text, start, "infinity") || matches_word(
        text,
        start,
        "nan",
    ) {
        return true;
    }
    let whole = skip_digits(text, start);
    let dotted = whole < n && text.get_char(whole) == '.';
    let fraction = if dotted {
        skip_digits(text, whole + 1)
    } else {
        whole
    };
    let digits = if dotted {
        fraction - start - 1
    } else {
        fraction - start
    };
    if digits < 1 {
        return false;
    }
    if fraction == n {
        return true;
    }
    let mark = text.get_char(fraction);
    if mark != 'e' && mark != 'E' {
        return false;
    }
    let exponent = skip_sign(text, fraction + 1);
    let end = skip_digits(text, exponent);
    end > exponent && end == n
}

} // verus!
