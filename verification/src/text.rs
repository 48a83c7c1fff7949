//! Text building blocks: decimal rendering of integers and removal of a pattern.
use vstd::prelude::*;

verus! {

/// The character of the decimal digit `d` (0 <= d < 10).
pub open spec fn digit_char(d: int) -> char {
    if d == 0 { '0' } else if d == 1 { '1' } else if d == 2 { '2' } else if d == 3 { '3' }
    else if d == 4 { '4' } else if d == 5 { '5' } else if d == 6 { '6' } else if d == 7 { '7' }
    else if d == 8 { '8' } else { '9' }
}

/// The decimal digits of `n`, most significant first, without leading zeros.
pub open spec fn digits(n: nat) -> Seq<char>
    decreases n,
{
    if n < 10 {
        seq![digit_char(n as int)]
    } else {
        digits(n / 10).push(digit_char(n as int % 10))
    }
}

/// How an integer is written in decimal: a minus sign for negative values, then its digits.
pub open spec fn decimal(i: int) -> Seq<char> {
    if i < 0 {
        seq!['-'] + digits((-i) as nat)
    } else {
        digits(i as nat)
    }
}

fn digit_str(d: u64) -> (r: &'static str)
    requires
        d < 10,
    ensures
        r@ == seq![digit_char(d as int)],
{
    proof {
        reveal_strlit("0");
        reveal_strlit("1");
        reveal_strlit("2");
        reveal_strlit("3");
        reveal_strlit("4");
        reveal_strlit("5");
        reveal_strlit("6");
        reveal_strlit("7");
        reveal_strlit("8");
        reveal_strlit("9");
    }
    if d == 0 { "0" } else if d == 1 { "1" } else if d == 2 { "2" } else if d == 3 { "3" }
    else if d == 4 { "4" } else if d == 5 { "5" } else if d == 6 { "6" } else if d == 7 { "7" }
    else if d == 8 { "8" } else { "9" }
}

fn push_digits(n: u64, out: &mut String)
    ensures
        final(out)@ == old(out)@ + digits(n as nat),
    decreases n,
{
    if n >= 10 {
        push_digits(n / 10, out);
    }
    let d = digit_str(n % 10);
    out.append(d);
    proof {
        if n >= 10 {
            assert(digits(n as nat) == digits((n / 10) as nat).push(digit_char(n as int % 10)));
        }
    }
}

/// Writes `i` in decimal, as `i32`'s `Display` does.
pub fn decimal_text(i: i32) -> (r: String)
    ensures
        r@ == decimal(i as int),
{
    let mut out = String::new();
    if i < 0 {
        proof {
            reveal_strlit("-");
        }
        out.append("-");
        let magnitude: u64 = (0i64 - i as i64) as u64;
        push_digits(magnitude, &mut out);
    } else {
        push_digits(i as u64, &mut out);
    }
    out
}

/// `s` with every occurrence of `pattern` taken out, scanning from the left and
/// never letting two removed occurrences overlap (what `str::replace(pattern, "")` gives).
pub open spec fn remove_all(s: Seq<char>, pattern: Seq<char>) -> Seq<char>
    decreases s.len(),
{
    if pattern.len() == 0 || s.len() < pattern.len() {
        s
    } else if s.take(pattern.len() as int) == pattern {
        remove_all(s.skip(pattern.len() as int), pattern)
    } else {
        seq![s[0]] + remove_all(s.skip(1), pattern)
    }
}

fn occurs_at(s: &str, n: usize, pattern: &str, m: usize, i: usize) -> (r: bool)
    requires
        n == s@.len(),
        m == pattern@.len(),
        i + m <= n,
    ensures
        r == (s@.subrange(i as int, i + m) == pattern@),
{
    let mut j: usize = 0;
    while j < m
        invariant
            n == s@.len(),
            m == pattern@.len(),
            i + m <= n,
            j <= m,
            forall|k: int| 0 <= k < j ==> s@[i + k] == pattern@[k],
        decreases m - j,
    {
        if s.get_char(i + j) != pattern.get_char(j) {
            assert(s@.subrange(i as int, i + m)[j as int] != pattern@[j as int]);
            return false;
        }
        j = j + 1;
    }
    assert(s@.subrange(i as int, i + m) =~= pattern@);
    true
}

proof fn lemma_remove_all_short(s: Seq<char>, pattern: Seq<char>)
    requires
        s.len() < pattern.len(),
    ensures
        remove_all(s, pattern) == s,
{
}

/// Removes every occurrence of `pattern` from `s`.
pub fn remove_pattern(s: &str, pattern: &str) -> (r: String)
    ensures
        r@ == remove_all(s@, pattern@),
{
    let n = s.unicode_len();
    let m = pattern.unicode_len();
    if m == 0 {
        return String::from_str(s);
    }
    let mut out = String::new();
    let mut seg: usize = 0;
    let mut i: usize = 0;
    assert(s@.subrange(0, n as int) =~= s@);
    assert(out@ + s@.subrange(0, 0) =~= Seq::<char>::empty());
    while i < n
        invariant
            n == s@.len(),
            m == pattern@.len(),
            m > 0,
            seg <= i <= n,
            out@ + s@.subrange(seg as int, i as int) + remove_all(s@.subrange(i as int, n as int), pattern@)
                == remove_all(s@, pattern@),
        decreases n - i,
    {
        let ghost rest = s@.subrange(i as int, n as int);
        if m <= n - i && occurs_at(s, n, pattern, m, i) {
            assert(rest.take(m as int) =~= s@.subrange(i as int, i + m));
            assert(rest.skip(m as int) =~= s@.subrange(i + m, n as int));
            let piece = s.substring_char(seg, i);
            out.append(piece);
            assert(s@.subrange((i + m) as int, (i + m) as int) =~= Seq::<char>::empty());
            i = i + m;
            seg = i;
        } else {
            proof {
                assert(rest.skip(1) =~= s@.subrange(i + 1, n as int));
                if i + m > n {
                    lemma_remove_all_short(rest, pattern@);
                    lemma_remove_all_short(rest.skip(1), pattern@);
                    assert(rest =~= seq![rest[0]] + rest.skip(1));
                } else {
                    assert(rest.take(m as int) =~= s@.subrange(i as int, i + m));
                }
                assert(s@.subrange(seg as int, i + 1) =~= s@.subrange(seg as int, i as int).push(s@[i as int]));
                assert(out@ + s@.subrange(seg as int, i + 1) + remove_all(rest.skip(1), pattern@)
                    =~= out@ + s@.subrange(seg as int, i as int) + (seq![rest[0]] + remove_all(rest.skip(1), pattern@)));
            }
            i = i + 1;
        }
    }
    let piece = s.substring_char(seg, n);
    out.append(piece);
    assert(s@.subrange(n as int, n as int) =~= Seq::<char>::empty());
    out
}

/// `pattern` occurs in `s` starting at position `i`.
pub open spec fn occurs_in_at(s: Seq<char>, pattern: Seq<char>, i: int) -> bool {
    0 <= i && i + pattern.len() <= s.len() && s.subrange(i, i + pattern.len()) == pattern
}

/// Taking a pattern out never makes a text longer.
pub proof fn lemma_remove_all_shortens(s: Seq<char>, pattern: Seq<char>)
    ensures
        remove_all(s, pattern).len() <= s.len(),
    decreases s.len(),
{
    if pattern.len() > 0 && s.len() >= pattern.len() {
        if s.take(pattern.len() as int) == pattern {
            lemma_remove_all_shortens(s.skip(pattern.len() as int), pattern);
        } else {
            lemma_remove_all_shortens(s.skip(1), pattern);
        }
    }
}

/// A text in which the pattern does not occur comes out unchanged.
pub proof fn lemma_remove_all_absent(s: Seq<char>, pattern: Seq<char>)
    requires
        forall|i: int| !#[trigger] occurs_in_at(s, pattern, i),
    ensures
        remove_all(s, pattern) == s,
    decreases s.len(),
{
    if pattern.len() > 0 && s.len() >= pattern.len() {
        assert(!occurs_in_at(s, pattern, 0));
        assert(s.take(pattern.len() as int) =~= s.subrange(0, pattern.len() as int));
        let rest = s.skip(1);
        assert forall|i: int| !#[trigger] occurs_in_at(rest, pattern, i) by {
            if occurs_in_at(rest, pattern, i) {
                assert(rest.subrange(i, i + pattern.len()) =~= s.subrange(i + 1, i + 1 + pattern.len()));
                assert(occurs_in_at(s, pattern, i + 1));
            }
        }
        lemma_remove_all_absent(rest, pattern);
        assert(seq![s[0]] + rest =~= s);
    }
}

/// `c` is an ASCII decimal digit.
pub open spec fn is_digit(c: char) -> bool {
    '0' as u32 <= c as u32 <= '9' as u32
}

/// The number that the decimal digits `s` spell.
pub open spec fn digits_value(s: Seq<char>) -> int
    decreases s.len(),
{
    if s.len() == 0 {
        0
    } else {
        digits_value(s.drop_last()) * 10 + (s.last() as u32 - '0' as u32)
    }
}

/// Every character of `s` is an ASCII decimal digit.
pub open spec fn all_digits(s: Seq<char>) -> bool {
    forall|i: int| 0 <= i < s.len() ==> #[trigger] is_digit(s[i])
}

/// `s` without its leading `+` or `-` sign, if it has one.
pub open spec fn unsigned_part(s: Seq<char>) -> Seq<char> {
    if s.len() > 0 && (s[0] == '-' || s[0] == '+') { s.skip(1) } else { s }
}

/// The `i64` that `s` spells in decimal: an optional `+` or `-` sign followed by one or more
/// ASCII digits, whose value fits in an `i64`; nothing otherwise.
pub open spec fn decimal_i64(s: Seq<char>) -> Option<i64> {
    let body = unsigned_part(s);
    let value = if s.len() > 0 && s[0] == '-' { -digits_value(body) } else { digits_value(body) };
    if body.len() > 0 && all_digits(body) && i64::MIN <= value <= i64::MAX {
        Some(value as i64)
    } else {
        None
    }
}

/// The value of decimal digits never falls below zero.
pub proof fn lemma_digits_value_nonnegative(s: Seq<char>)
    requires
        forall|i: int| 0 <= i < s.len() ==> #[trigger] is_digit(s[i]),
    ensures
        digits_value(s) >= 0,
    decreases s.len(),
{
    if s.len() > 0 {
        lemma_digits_value_nonnegative(s.drop_last());
        assert(is_digit(s[s.len() - 1]));
    }
}

/// Leading digits spell no more than all of them do.
pub proof fn lemma_digits_value_prefix(s: Seq<char>, k: int)
    requires
        0 <= k <= s.len(),
        forall|i: int| 0 <= i < s.len() ==> #[trigger] is_digit(s[i]),
    ensures
        digits_value(s.take(k)) <= digits_value(s),
    decreases s.len() - k,
{
    if k < s.len() {
        lemma_digits_value_prefix(s, k + 1);
        assert(s.take(k + 1).drop_last() =~= s.take(k));
        assert(is_digit(s.take(k + 1)[k]));
        lemma_digits_value_nonnegative(s.take(k));
    } else {
        assert(s.take(k) =~= s);
    }
}

/// Reads a decimal `i64` as std's `i64::from_str` does: an optional `+` or `-` sign followed
/// by one or more ASCII digits, whose value fits in an `i64`; nothing for any other text.
pub fn parse_i64(s: &str) -> (r: Option<i64>)
    ensures
        r == decimal_i64(s@),
{
    let n = s.unicode_len();
    if n == 0 {
        return None;
    }
    let first = s.get_char(0);
    let negative = first == '-';
    let start: usize = if first == '-' || first == '+' { 1 } else { 0 };
    let ghost body = unsigned_part(s@);
    assert(start == 0 ==> s@.skip(0) =~= s@);
    if start == n {
        return None;
    }
    let mut acc: u128 = 0;
    let mut i: usize = start;
    while i < n
        invariant
            start <= i <= n,
            n == s@.len(),
            start == (if s@[0] == '-' || s@[0] == '+' { 1usize } else { 0usize }),
            negative == (s@[0] == '-'),
            start < n,
            body == unsigned_part(s@),
            body == s@.skip(start as int),
            forall|j: int| 0 <= j < i - start ==> #[trigger] is_digit(body[j]),
            acc == digits_value(body.take(i - start)),
            acc <= 9_223_372_036_854_775_808,
        decreases n - i,
    {
        let c = s.get_char(i);
        let code = c as u32;
        if code < 48 || code > 57 {
            assert(body[i - start] == c);
            assert(!is_digit(body[i - start]));
            assert(!all_digits(body));
            return None;
        }
        assert(body.take(i - start + 1).drop_last() =~= body.take(i - start));
        assert(body.take(i - start + 1).last() == c);
        acc = acc * 10 + (code - 48) as u128;
        if acc > 9_223_372_036_854_775_808 {
            proof {
                if all_digits(body) {
                    lemma_digits_value_prefix(body, i - start + 1);
                }
            }
            return None;
        }
        i = i + 1;
    }
    assert(body.take(n - start) =~= body);
    if negative {
        Some((0 - (acc as i128)) as i64)
    } else if acc > 9_223_372_036_854_775_807 {
        None
    } else {
        Some(acc as i64)
    }
}

} // verus!
