//! Character-level string helpers with their specifications.

use vstd::prelude::*;
use vstd::string::*;

verus! {

/// The character views of a sequence of strings.
pub open spec fn views(v: Seq<String>) -> Seq<Seq<char>> {
    v.map_values(|s: String| s@)
}

/// Appends one character to a string.
///
/// Calls `String::push`, whose documentation states that it appends the
/// given character to the end of the string.
#[verifier::external_body]
pub(crate) fn push_char(s: &mut String, c: char)
    ensures
        final(s)@ == old(s)@.push(c),
{
    s.push(c);
}

/// Creates an owned string from a string slice.
pub fn string_of(s: &str) -> (res: String)
    ensures
        res@ == s@,
{
    String::from_str(s)
}

/// Whether `v` holds a string equal to `s`.
pub fn contains_string(v: &Vec<String>, s: &String) -> (res: bool)
    ensures
        res == views(v@).contains(s@),
{
    let mut i: usize = 0;
    while i < v.len()
        invariant
            i <= v.len(),
            forall|j: int| 0 <= j < i ==> v@[j]@ != s@,
        decreases v.len() - i,
    {
        if v[i] == *s {
            assert(views(v@)[i as int] == s@);
            return true;
        }
        i = i + 1;
    }
    assert forall|j: int| 0 <= j < views(v@).len() implies views(v@)[j] != s@ by {
        assert(views(v@)[j] == v@[j]@);
    }
    false
}

} // verus!

verus! {

/// Decimal digit character for a value below ten.
pub open spec fn digit_char(d: nat) -> char {
    if d == 0 { '0' }
    else if d == 1 { '1' }
    else if d == 2 { '2' }
    else if d == 3 { '3' }
    else if d == 4 { '4' }
    else if d == 5 { '5' }
    else if d == 6 { '6' }
    else if d == 7 { '7' }
    else if d == 8 { '8' }
    else { '9' }
}

/// Decimal text of a natural number, without leading zeros.
pub open spec fn decimal(n: nat) -> Seq<char>
    decreases n,
{
    if n < 10 {
        seq![digit_char(n)]
    } else {
        decimal(n / 10).push(digit_char(n % 10))
    }
}

fn digit_of(d: usize) -> (c: char)
    requires
        d < 10,
    ensures
        c == digit_char(d as nat),
{
    if d == 0 { '0' }
    else if d == 1 { '1' }
    else if d == 2 { '2' }
    else if d == 3 { '3' }
    else if d == 4 { '4' }
    else if d == 5 { '5' }
    else if d == 6 { '6' }
    else if d == 7 { '7' }
    else if d == 8 { '8' }
    else { '9' }
}

/// Appends the decimal text of `n` to `s`.
pub fn push_decimal(s: &mut String, n: usize)
    ensures
        final(s)@ == old(s)@ + decimal(n as nat),
    decreases n,
{
    if n < 10 {
        push_char(s, digit_of(n));
        assert(decimal(n as nat) == seq![digit_char(n as nat)]);
    } else {
        push_decimal(s, n / 10);
        push_char(s, digit_of(n % 10));
        assert(decimal(n as nat) == decimal((n / 10) as nat).push(digit_char((n % 10) as nat)));
    }
}

/// Whether a character is a decimal digit.
pub open spec fn is_digit(c: char) -> bool {
    '0' <= c && c <= '9'
}

/// Value of a decimal digit character.
pub open spec fn digit_value(c: char) -> nat {
    (c as int - '0' as int) as nat
}

/// Reasons for which text is not a `usize`, as the standard library tells
/// them apart.
#[derive(Debug, Clone, Copy, PartialEq, Eq)]
pub enum IntParseErrorKind {
    /// The text is empty
    Empty,
    /// The text holds a character that is not a digit
    InvalidDigit,
    /// The value does not fit in a `usize`
    PosOverflow,
}

/// Result of reading the digits of `s` from index `i` on, with `acc` the
/// value of the digits read before.
pub open spec fn parse_digits(s: Seq<char>, i: int, acc: nat) -> Result<nat, IntParseErrorKind>
    decreases s.len() - i,
{
    if i >= s.len() {
        Ok(acc)
    } else if !is_digit(s[i]) {
        Err(IntParseErrorKind::InvalidDigit)
    } else if acc * 10 + digit_value(s[i]) > usize::MAX {
        Err(IntParseErrorKind::PosOverflow)
    } else {
        parse_digits(s, i + 1, acc * 10 + digit_value(s[i]))
    }
}

/// Result of reading text as an unsigned integer, as `str::parse::<usize>`
/// documents it: an optional `+` sign followed by decimal digits, the value
/// fitting in a `usize`; digits are read from the left and the first
/// failing one decides the error.
pub open spec fn parse_usize_spec(s: Seq<char>) -> Result<nat, IntParseErrorKind> {
    if s.len() == 0 {
        Err(IntParseErrorKind::Empty)
    } else if (s[0] == '+' || s[0] == '-') && s.len() == 1 {
        Err(IntParseErrorKind::InvalidDigit)
    } else if s[0] == '+' {
        parse_digits(s.drop_first(), 0, 0)
    } else {
        parse_digits(s, 0, 0)
    }
}

/// Reads text as an unsigned integer, with the meaning `str::parse::<usize>`
/// gives it.
pub fn parse_usize(s: &str) -> (res: Result<usize, IntParseErrorKind>)
    ensures
        match (res, parse_usize_spec(s@)) {
            (Ok(v), Ok(w)) => v as nat == w,
            (Err(e), Err(f)) => e == f,
            _ => false,
        },
{
    let n = s.unicode_len();
    if n == 0 {
        return Err(IntParseErrorKind::Empty);
    }
    let first = s.get_char(0);
    if (first == '+' || first == '-') && n == 1 {
        return Err(IntParseErrorKind::InvalidDigit);
    }
    let mut i: usize = if first == '+' { 1 } else { 0 };
    let ghost digits = if first == '+' { s@.drop_first() } else { s@ };
    let ghost off: int = i as int;
    let mut acc: usize = 0;
    assert(parse_usize_spec(s@) == parse_digits(digits, 0, 0));
    while i < n
        invariant
            n == s@.len(),
            off == 0 || off == 1,
            off <= i <= n,
            digits == s@.subrange(off, n as int),
            parse_digits(digits, i - off, acc as nat) == parse_usize_spec(s@),
        decreases n - i,
    {
        let c = s.get_char(i);
        assert(digits[i - off] == c);
        if !('0' <= c && c <= '9') {
            return Err(IntParseErrorKind::InvalidDigit);
        }
        let d = (c as u32 - '0' as u32) as usize;
        assert(d as nat == digit_value(c));
        if acc > (usize::MAX - d) / 10 {
            assert(acc * 10 + d > usize::MAX) by (nonlinear_arith)
                requires acc > (usize::MAX - d) / 10, d <= 9;
            return Err(IntParseErrorKind::PosOverflow);
        }
        assert(acc * 10 + d <= usize::MAX) by (nonlinear_arith)
            requires acc <= (usize::MAX - d) / 10, d <= 9;
        acc = acc * 10 + d;
        i = i + 1;
    }
    Ok(acc)
}

} // verus!

verus! {

/// Whether `p` is a prefix of `s`.
pub open spec fn has_prefix(s: Seq<char>, p: Seq<char>) -> bool {
    p.len() <= s.len() && s.subrange(0, p.len() as int) == p
}

/// Whether `s` starts with `p`.
pub fn starts_with(s: &str, p: &str) -> (res: bool)
    ensures
        res == has_prefix(s@, p@),
{
    let n = s.unicode_len();
    let m = p.unicode_len();
    if m > n {
        return false;
    }
    let mut i: usize = 0;
    while i < m
        invariant
            n == s@.len(),
            m == p@.len(),
            m <= n,
            i <= m,
            forall|j: int| 0 <= j < i ==> s@[j] == p@[j],
        decreases m - i,
    {
        if s.get_char(i) != p.get_char(i) {
            assert(s@.subrange(0, m as int)[i as int] != p@[i as int]);
            return false;
        }
        i = i + 1;
    }
    assert(s@.subrange(0, m as int) =~= p@);
    true
}

/// Whether two string slices hold the same characters.
pub fn str_eq(a: &str, b: &str) -> (res: bool)
    ensures
        res == (a@ == b@),
{
    let n = a.unicode_len();
    if n != b.unicode_len() {
        return false;
    }
    let r = starts_with(a, b);
    assert(a@ =~= a@.subrange(0, n as int));
    r
}

/// Whether `c` has the Unicode `White_Space` property, which is what
/// `char::is_whitespace` documents that it tests.
pub open spec fn is_whitespace_spec(c: char) -> bool {
    ||| ('\u{9}' <= c && c <= '\u{d}')
    ||| c == ' '
    ||| c == '\u{85}'
    ||| c == '\u{a0}'
    ||| c == '\u{1680}'
    ||| ('\u{2000}' <= c && c <= '\u{200a}')
    ||| c == '\u{2028}'
    ||| c == '\u{2029}'
    ||| c == '\u{202f}'
    ||| c == '\u{205f}'
    ||| c == '\u{3000}'
}

/// Whether `c` is a whitespace character.
pub fn is_whitespace(c: char) -> (res: bool)
    ensures
        res == is_whitespace_spec(c),
{
    ('\u{9}' <= c && c <= '\u{d}') || c == ' ' || c == '\u{85}' || c == '\u{a0}' || c == '\u{1680}'
        || ('\u{2000}' <= c && c <= '\u{200a}') || c == '\u{2028}' || c == '\u{2029}' || c
        == '\u{202f}' || c == '\u{205f}' || c == '\u{3000}'
}

/// Index of the first character of `s` that is not whitespace, or the
/// length of `s` when there is none.
pub open spec fn first_non_ws(s: Seq<char>) -> int
    decreases s.len(),
{
    if s.len() == 0 {
        0
    } else if is_whitespace_spec(s[0]) {
        1 + first_non_ws(s.drop_first())
    } else {
        0
    }
}

/// `s` without its leading whitespace.
pub open spec fn trim_start_spec(s: Seq<char>) -> Seq<char> {
    s.subrange(first_non_ws(s), s.len() as int)
}

/// `s` without its trailing whitespace.
pub open spec fn trim_end_spec(s: Seq<char>) -> Seq<char>
    decreases s.len(),
{
    if s.len() > 0 && is_whitespace_spec(s.last()) {
        trim_end_spec(s.drop_last())
    } else {
        s
    }
}

/// `s` without leading and trailing whitespace.
pub open spec fn trim_spec(s: Seq<char>) -> Seq<char> {
    trim_end_spec(trim_start_spec(s))
}

proof fn lemma_first_non_ws(s: Seq<char>, i: int)
    requires
        0 <= i <= s.len(),
        forall|j: int| 0 <= j < i ==> is_whitespace_spec(s[j]),
        i == s.len() || !is_whitespace_spec(s[i]),
    ensures
        first_non_ws(s) == i,
    decreases s.len(),
{
    if s.len() > 0 && i > 0 {
        lemma_first_non_ws(s.drop_first(), i - 1);
    }
}

proof fn lemma_trim_end(s: Seq<char>, k: int)
    requires
        0 <= k <= s.len(),
        forall|j: int| k <= j < s.len() ==> is_whitespace_spec(s[j]),
    ensures
        trim_end_spec(s) == trim_end_spec(s.subrange(0, k)),
    decreases s.len() - k,
{
    if k < s.len() {
        assert(s.drop_last() =~= s.subrange(0, s.len() - 1));
        lemma_trim_end(s.drop_last(), k);
        assert(s.drop_last().subrange(0, k) =~= s.subrange(0, k));
    } else {
        assert(s.subrange(0, k) =~= s);
    }
}

/// Index where the leading whitespace of `s` ends.
fn skip_ws(s: &str, from: usize, n: usize) -> (i: usize)
    requires
        n == s@.len(),
        from <= n,
    ensures
        from <= i <= n,
        forall|j: int| from <= j < i ==> is_whitespace_spec(s@[j]),
        i == n || !is_whitespace_spec(s@[i as int]),
{
    let mut i = from;
    while i < n
        invariant
            n == s@.len(),
            from <= i <= n,
            forall|j: int| from <= j < i ==> is_whitespace_spec(s@[j]),
        decreases n - i,
    {
        if !is_whitespace(s.get_char(i)) {
            return i;
        }
        i = i + 1;
    }
    i
}

/// Trims whitespace from both ends of `s`.
pub fn trim(s: &str) -> (res: &str)
    ensures
        res@ == trim_spec(s@),
{
    let n = s.unicode_len();
    let start = skip_ws(s, 0, n);
    proof {
        lemma_first_non_ws(s@, start as int);
    }
    let mut end = n;
    let mut done = end <= start;
    while !done
        invariant
            n == s@.len(),
            start <= end <= n,
            forall|j: int| end <= j < n ==> is_whitespace_spec(s@[j]),
            done ==> (end == start || !is_whitespace_spec(s@[end - 1])),
            !done ==> end > start,
        decreases end, if done { 0int } else { 1int },
    {
        if !is_whitespace(s.get_char(end - 1)) {
            done = true;
        } else {
            end = end - 1;
            done = end <= start;
        }
    }
    let res = s.substring_char(start, end);
    proof {
        let t = trim_start_spec(s@);
        assert(t =~= s@.subrange(start as int, n as int));
        lemma_trim_end(t, end - start);
        assert(t.subrange(0, end - start) =~= s@.subrange(start as int, end as int));
        if end > start {
            let u = s@.subrange(start as int, end as int);
            assert(!is_whitespace_spec(u.last()));
        }
    }
    res
}

/// Splits `s`, trimmed, at its first whitespace: the part before, and the
/// rest without its leading whitespace. Without whitespace the rest is empty.
pub open spec fn split_first_word_spec(s: Seq<char>) -> (Seq<char>, Seq<char>) {
    let t = trim_spec(s);
    if exists|i: int| 0 <= i < t.len() && is_whitespace_spec(t[i]) {
        let p = choose|i: int|
            0 <= i < t.len() && is_whitespace_spec(t[i]) && forall|j: int|
                0 <= j < i ==> !is_whitespace_spec(t[j]);
        (t.subrange(0, p), trim_start_spec(t.subrange(p, t.len() as int)))
    } else {
        (t, Seq::empty())
    }
}

} // verus!

verus! {

/// Removes leading whitespace from `s`.
pub fn trim_start(s: &str) -> (res: &str)
    ensures
        res@ == trim_start_spec(s@),
{
    let n = s.unicode_len();
    let start = skip_ws(s, 0, n);
    proof {
        lemma_first_non_ws(s@, start as int);
    }
    s.substring_char(start, n)
}

/// Splits a command line into its first word and the rest.
pub fn split_first_word(s: &str) -> (res: (&str, &str))
    ensures
        (res.0@, res.1@) == split_first_word_spec(s@),
{
    let t = trim(s);
    let n = t.unicode_len();
    let mut i: usize = 0;
    while i < n
        invariant
            n == t@.len(),
            t@ == trim_spec(s@),
            i <= n,
            forall|j: int| 0 <= j < i ==> !is_whitespace_spec(t@[j]),
        decreases n - i,
    {
        if is_whitespace(t.get_char(i)) {
            let first = t.substring_char(0, i);
            let rest = trim_start(t.substring_char(i, n));
            proof {
                let tt = trim_spec(s@);
                assert(0 <= i < tt.len() && is_whitespace_spec(tt[i as int]) && forall|j: int|
                    0 <= j < i ==> !is_whitespace_spec(tt[j]));
                let p = choose|k: int|
                    0 <= k < tt.len() && is_whitespace_spec(tt[k]) && forall|j: int|
                        0 <= j < k ==> !is_whitespace_spec(tt[j]);
                if p < i {
                    assert(!is_whitespace_spec(tt[p]));
                }
                if p > i {
                    assert(!is_whitespace_spec(tt[i as int]));
                }
                assert(p == i);
            }
            return (first, rest);
        }
        i = i + 1;
    }
    let empty = t.substring_char(n, n);
    assert(empty@ =~= Seq::<char>::empty());
    (t, empty)
}

} // verus!

verus! {

/// Reasons for which text is not an `i32`, as the standard library tells
/// them apart.
#[derive(Debug, Clone, Copy, PartialEq, Eq)]
pub enum SignedParseErrorKind {
    /// The text is empty
    Empty,
    /// The text holds a character that is not a digit
    InvalidDigit,
    /// The value is above `i32::MAX`
    PosOverflow,
    /// The value is below `i32::MIN`
    NegOverflow,
}

/// Result of reading the digits of `s` from index `i` on, with `acc` the
/// magnitude of the digits read before, the magnitude not to exceed `max`.
pub open spec fn parse_magnitude(s: Seq<char>, i: int, acc: nat, max: nat) -> Option<Result<nat, ()>>
    decreases s.len() - i,
{
    if i >= s.len() {
        Some(Ok(acc))
    } else if !is_digit(s[i]) {
        None
    } else if acc * 10 + digit_value(s[i]) > max {
        Some(Err(()))
    } else {
        parse_magnitude(s, i + 1, acc * 10 + digit_value(s[i]), max)
    }
}

/// Result of reading text as an `i32`, as `str::parse::<i32>` documents it:
/// an optional `+` or `-` sign followed by decimal digits, the value fitting
/// in an `i32`; digits are read from the left and the first failing one
/// decides the error.
pub open spec fn parse_i32_spec(s: Seq<char>) -> Result<int, SignedParseErrorKind> {
    if s.len() == 0 {
        Err(SignedParseErrorKind::Empty)
    } else if (s[0] == '+' || s[0] == '-') && s.len() == 1 {
        Err(SignedParseErrorKind::InvalidDigit)
    } else if s[0] == '-' {
        match parse_magnitude(s.drop_first(), 0, 0, 0x8000_0000) {
            None => Err(SignedParseErrorKind::InvalidDigit),
            Some(Err(_)) => Err(SignedParseErrorKind::NegOverflow),
            Some(Ok(m)) => Ok(-m),
        }
    } else {
        let d = if s[0] == '+' { s.drop_first() } else { s };
        match parse_magnitude(d, 0, 0, 0x7fff_ffff) {
            None => Err(SignedParseErrorKind::InvalidDigit),
            Some(Err(_)) => Err(SignedParseErrorKind::PosOverflow),
            Some(Ok(m)) => Ok(m as int),
        }
    }
}

/// Reads text as an `i32`, with the meaning `str::parse::<i32>` gives it.
pub fn parse_i32(s: &str) -> (res: Result<i32, SignedParseErrorKind>)
    ensures
        match (res, parse_i32_spec(s@)) {
            (Ok(v), Ok(w)) => v as int == w,
            (Err(e), Err(f)) => e == f,
            _ => false,
        },
{
    let n = s.unicode_len();
    if n == 0 {
        return Err(SignedParseErrorKind::Empty);
    }
    let first = s.get_char(0);
    if (first == '+' || first == '-') && n == 1 {
        return Err(SignedParseErrorKind::InvalidDigit);
    }
    let negative = first == '-';
    let max: u64 = if negative { 0x8000_0000 } else { 0x7fff_ffff };
    let mut i: usize = if first == '+' || first == '-' { 1 } else { 0 };
    let ghost digits = if first == '+' || first == '-' { s@.drop_first() } else { s@ };
    let ghost off: int = i as int;
    let mut acc: u64 = 0;
    assert(first == s@[0]);
    assert(digits =~= s@.subrange(off, n as int));
    while i < n
        invariant
            n == s@.len(),
            off == 0 || off == 1,
            off <= i <= n,
            digits == s@.subrange(off, n as int),
            acc <= max,
            n > 0,
            !((s@[0] == '+' || s@[0] == '-') && n == 1),
            negative == (s@[0] == '-'),
            max == (if negative { 0x8000_0000u64 } else { 0x7fff_ffffu64 }),
            digits == (if s@[0] == '+' || s@[0] == '-' { s@.drop_first() } else { s@ }),
            parse_magnitude(digits, i - off, acc as nat, max as nat) == parse_magnitude(digits, 0, 0, max as nat),
        decreases n - i,
    {
        let c = s.get_char(i);
        assert(digits[i - off] == c);
        if !('0' <= c && c <= '9') {
            return if negative {
                Err(SignedParseErrorKind::InvalidDigit)
            } else {
                Err(SignedParseErrorKind::InvalidDigit)
            };
        }
        let d = (c as u32 - '0' as u32) as u64;
        assert(d as nat == digit_value(c));
        if acc * 10 + d > max {
            return if negative {
                Err(SignedParseErrorKind::NegOverflow)
            } else {
                Err(SignedParseErrorKind::PosOverflow)
            };
        }
        acc = acc * 10 + d;
        i = i + 1;
    }
    if negative {
        if acc == 0x8000_0000 {
            Ok(i32::MIN)
        } else {
            Ok(-(acc as i32))
        }
    } else {
        Ok(acc as i32)
    }
}

} // verus!
