//! String utilities with exact specifications over `Seq<char>`.

use vstd::prelude::*;
use vstd::string::*;

verus! {

/// Whether `s` contains the character `c`.
pub fn contains_char(s: &str, c: char) -> (r: bool)
    ensures
        r == s@.contains(c),
{
    let n = s.unicode_len();
    let mut i: usize = 0;
    while i < n
        invariant
            n == s@.len(),
            i <= n,
            forall|j: int| 0 <= j < i ==> s@[j] != c,
        decreases n - i,
    {
        if s.get_char(i) == c {
            assert(s@[i as int] == c);
            return true;
        }
        i = i + 1;
    }
    false
}

/// The concatenation of `a` and `b`.
pub fn concat(a: &str, b: &str) -> (r: String)
    ensures
        r@ == a@ + b@,
{
    let mut s = String::from_str(a);
    s.append(b);
    s
}

/// Whether `a` and `b` hold the same characters.
pub fn str_eq(a: &str, b: &str) -> (r: bool)
    ensures
        r == (a@ == b@),
{
    let sa = String::from_str(a);
    let sb = String::from_str(b);
    sa == sb
}

/// The character sequences of a list of strings.
pub open spec fn views(v: Seq<String>) -> Seq<Seq<char>> {
    v.map_values(|s: String| s@)
}

/// Whether `s` begins with `p`.
pub fn starts_with(s: &str, p: &str) -> (r: bool)
    ensures
        r == p@.is_prefix_of(s@),
{
    let n = s.unicode_len();
    let m = p.unicode_len();
    if m > n {
        return false;
    }
    let head = s.substring_char(0, m);
    let r = str_eq(head, p);
    assert(s@.subrange(0, m as int) =~= s@.take(m as int));
    r
}

/// Appends `s` to `v`.
pub fn push_string(v: &mut Vec<String>, s: String)
    ensures
        views(final(v)@) == views(old(v)@).push(s@),
{
    let ghost added = s@;
    v.push(s);
    assert(views(v@) =~= views(old(v)@).push(added));
}

/// Appends the strings of `tail` to `v`, in order.
pub fn append_all(v: &mut Vec<String>, tail: Vec<String>)
    ensures
        views(final(v)@) == views(old(v)@) + views(tail@),
{
    let ghost added = tail@;
    let mut tail = tail;
    v.append(&mut tail);
    assert(views(v@) =~= views(old(v)@) + views(added));
}

/// Whether `c` has the Unicode `White_Space` property (as `char::is_whitespace`).
pub open spec fn is_ws(c: char) -> bool {
    ||| ('\u{9}' <= c && c <= '\u{d}')
    ||| c == ' '
    ||| c == '\u{85}'
    ||| c == '\u{a0}'
    ||| c == '\u{1680}'
    ||| ('\u{2000}' <= c && c <= '\u{200a}')
    ||| c == '\u{2028}'
    ||| c == '\u{2029}'
    ||| c == '\u{202f}'
    ||| c == '\u{205f}'
    ||| c == '\u{3000}'
}

/// Whether `c` has the Unicode `White_Space` property.
pub fn is_whitespace(c: char) -> (r: bool)
    ensures
        r == is_ws(c),
{
    ('\u{9}' <= c && c <= '\u{d}') || c == ' ' || c == '\u{85}' || c == '\u{a0}' || c == '\u{1680}'
        || ('\u{2000}' <= c && c <= '\u{200a}') || c == '\u{2028}' || c == '\u{2029}' || c
        == '\u{202f}' || c == '\u{205f}' || c == '\u{3000}'
}

/// The maximal runs of non-whitespace characters of `s`, in order
/// (what `str::split_whitespace` yields).
pub open spec fn words(s: Seq<char>) -> Seq<Seq<char>>
    decreases s.len(),
{
    if s.len() == 0 {
        seq![]
    } else {
        let w = words(s.drop_last());
        let c = s.last();
        if is_ws(c) {
            w
        } else if s.len() >= 2 && !is_ws(s[s.len() - 2]) {
            w.update(w.len() - 1, w.last().push(c))
        } else {
            w.push(seq![c])
        }
    }
}

/// The whitespace-separated words of `s`.
pub fn split_whitespace(s: &str) -> (r: Vec<String>)
    ensures
        views(r@) == words(s@),
{
    let n = s.unicode_len();
    let mut out: Vec<String> = Vec::new();
    let mut start: usize = 0;
    let mut in_word = false;
    let mut i: usize = 0;
    assert(s@.take(0) =~= Seq::<char>::empty());
    while i < n
        invariant
            n == s@.len(),
            i <= n,
            in_word ==> start < i && !is_ws(s@[i - 1]) && words(s@.take(i as int)) == views(out@).push(
                s@.subrange(start as int, i as int),
            ),
            !in_word ==> words(s@.take(i as int)) == views(out@) && (i == 0 || is_ws(s@[i - 1])),
        decreases n - i,
    {
        let c = s.get_char(i);
        let ghost prefix = s@.take(i as int);
        let ghost next = s@.take(i + 1);
        assert(next.drop_last() =~= prefix);
        assert(next.last() == c);
        if is_whitespace(c) {
            if in_word {
                let w = String::from_str(s.substring_char(start, i));
                let ghost before = out@;
                out.push(w);
                assert(views(out@) =~= views(before).push(s@.subrange(start as int, i as int)));
                in_word = false;
            }
        } else {
            if in_word {
                assert(next[i - 1] == s@[i - 1]);
                assert(s@.subrange(start as int, i + 1) =~= s@.subrange(start as int, i as int).push(c));
            } else {
                if i > 0 {
                    assert(next[i - 1] == s@[i - 1]);
                }
                assert(s@.subrange(i as int, i + 1) =~= seq![c]);
                start = i;
                in_word = true;
            }
        }
        i = i + 1;
    }
    assert(s@.take(n as int) =~= s@);
    if in_word {
        let w = String::from_str(s.substring_char(start, n));
        let ghost before = out@;
        out.push(w);
        assert(views(out@) =~= views(before).push(s@.subrange(start as int, n as int)));
    }
    out
}

/// Where the line ending before position `end` begins: just after the last
/// `\n` before `end`, or 0.
pub open spec fn line_start(s: Seq<char>, end: int) -> int
    decreases end,
{
    if end <= 0 {
        0
    } else if s[end - 1] == '\n' {
        end
    } else {
        line_start(s, end - 1)
    }
}

/// The last line of `s` as `str::lines` yields it: lines end at `\n`, a
/// `\r` before that `\n` is dropped, a final line needs no `\n`, and an
/// empty `s` has no lines.
pub open spec fn last_line(s: Seq<char>) -> Option<Seq<char>> {
    if s.len() == 0 {
        None
    } else if s.last() == '\n' {
        let end = s.len() - 1;
        let l = s.subrange(line_start(s, end), end);
        Some(
            if l.len() > 0 && l.last() == '\r' {
                l.drop_last()
            } else {
                l
            },
        )
    } else {
        Some(s.subrange(line_start(s, s.len() as int), s.len() as int))
    }
}

proof fn lemma_line_start_bounds(s: Seq<char>, end: int)
    requires
        0 <= end <= s.len(),
    ensures
        0 <= line_start(s, end) <= end,
    decreases end,
{
    if end > 0 && s[end - 1] != '\n' {
        lemma_line_start_bounds(s, end - 1);
    }
}

/// The last line of `s` (see [`last_line`]).
pub fn last_line_of(s: &str) -> (r: Option<String>)
    ensures
        match r {
            Some(l) => last_line(s@) == Some(l@),
            None => last_line(s@) is None,
        },
{
    let n = s.unicode_len();
    if n == 0 {
        return None;
    }
    let ends_with_newline = s.get_char(n - 1) == '\n';
    let end = if ends_with_newline {
        n - 1
    } else {
        n
    };
    let mut j = end;
    while j > 0 && s.get_char(j - 1) != '\n'
        invariant
            n == s@.len(),
            j <= end <= n,
            line_start(s@, end as int) == line_start(s@, j as int),
        decreases j,
    {
        j = j - 1;
    }
    proof {
        lemma_line_start_bounds(s@, j as int);
    }
    let line = s.substring_char(j, end);
    if ends_with_newline {
        let m = line.unicode_len();
        if m > 0 && line.get_char(m - 1) == '\r' {
            let trimmed = line.substring_char(0, m - 1);
            proof {
                assert(trimmed@ =~= line@.drop_last());
            }
            return Some(String::from_str(trimmed));
        }
    }
    Some(String::from_str(line))
}

/// Whether `c` is a square bracket.
pub open spec fn is_bracket(c: char) -> bool {
    c == '[' || c == ']'
}

/// `s` without its leading square brackets.
pub open spec fn trim_start_brackets(s: Seq<char>) -> Seq<char>
    decreases s.len(),
{
    if s.len() > 0 && is_bracket(s[0]) {
        trim_start_brackets(s.drop_first())
    } else {
        s
    }
}

/// `s` without its trailing square brackets.
pub open spec fn trim_end_brackets(s: Seq<char>) -> Seq<char>
    decreases s.len(),
{
    if s.len() > 0 && is_bracket(s.last()) {
        trim_end_brackets(s.drop_last())
    } else {
        s
    }
}

/// `s` without the square brackets at either end
/// (`trim_matches(|c| c == '[' || c == ']')`).
pub open spec fn trim_brackets(s: Seq<char>) -> Seq<char> {
    trim_end_brackets(trim_start_brackets(s))
}

/// `s` without the square brackets at either end.
pub fn trim_brackets_of(s: &str) -> (r: String)
    ensures
        r@ == trim_brackets(s@),
{
    let n = s.unicode_len();
    let mut lo: usize = 0;
    assert(s@.skip(0) =~= s@);
    while lo < n && is_bracket_char(s.get_char(lo))
        invariant
            n == s@.len(),
            lo <= n,
            trim_start_brackets(s@) == trim_start_brackets(s@.skip(lo as int)),
        decreases n - lo,
    {
        assert(s@.skip(lo as int).drop_first() =~= s@.skip(lo + 1));
        lo = lo + 1;
    }
    assert(trim_start_brackets(s@) == s@.skip(lo as int));
    assert(s@.skip(lo as int) =~= s@.subrange(lo as int, n as int));
    let mut hi: usize = n;
    while hi > lo && is_bracket_char(s.get_char(hi - 1))
        invariant
            n == s@.len(),
            lo <= hi <= n,
            trim_brackets(s@) == trim_end_brackets(s@.subrange(lo as int, hi as int)),
        decreases hi,
    {
        assert(s@.subrange(lo as int, hi as int).drop_last() =~= s@.subrange(lo as int, hi - 1));
        hi = hi - 1;
    }
    String::from_str(s.substring_char(lo, hi))
}

fn is_bracket_char(c: char) -> (r: bool)
    ensures
        r == is_bracket(c),
{
    c == '[' || c == ']'
}

/// `v` up to (not including) its second `.`, or all of `v` when it has fewer
/// than two: `split('.').take(2)` joined with `.`. `seen` says whether a
/// first `.` has already been passed.
pub open spec fn until_second_dot(v: Seq<char>, seen: bool) -> Seq<char>
    decreases v.len(),
{
    if v.len() == 0 {
        seq![]
    } else if v[0] == '.' && seen {
        seq![]
    } else {
        seq![v[0]] + until_second_dot(v.drop_first(), seen || v[0] == '.')
    }
}

/// The first two `.`-separated components of `v`, joined with `.`.
pub fn first_two_components(v: &str) -> (r: String)
    ensures
        r@ == until_second_dot(v@, false),
{
    let n = v.unicode_len();
    let mut i: usize = 0;
    let mut seen = false;
    assert(v@.skip(0) =~= v@);
    assert(v@.take(0) + until_second_dot(v@.skip(0), false) =~= until_second_dot(v@, false));
    while i < n
        invariant
            n == v@.len(),
            i <= n,
            until_second_dot(v@, false) == v@.take(i as int) + until_second_dot(v@.skip(i as int), seen),
        decreases n - i,
    {
        let c = v.get_char(i);
        assert(v@.skip(i as int)[0] == c);
        if c == '.' && seen {
            assert(v@.take(i as int) + Seq::<char>::empty() =~= v@.take(i as int));
            return String::from_str(v.substring_char(0, i));
        }
        assert(v@.skip(i as int).drop_first() =~= v@.skip(i + 1));
        assert(v@.take(i + 1) =~= v@.take(i as int) + seq![c]);
        assert(v@.take(i as int) + (seq![c] + until_second_dot(v@.skip(i + 1), seen || c == '.'))
            =~= v@.take(i + 1) + until_second_dot(v@.skip(i + 1), seen || c == '.'));
        seen = seen || c == '.';
        i = i + 1;
    }
    assert(v@.take(n as int) + Seq::<char>::empty() =~= v@);
    String::from_str(v.substring_char(0, n))
}

/// The decimal digit character for `d`.
pub open spec fn digit_char(d: int) -> char {
    if d == 0 { '0' } else if d == 1 { '1' } else if d == 2 { '2' } else if d == 3 { '3' }
    else if d == 4 { '4' } else if d == 5 { '5' } else if d == 6 { '6' } else if d == 7 { '7' }
    else if d == 8 { '8' } else { '9' }
}

/// The decimal representation of `n`, without leading zeros.
pub open spec fn decimal(n: nat) -> Seq<char>
    decreases n,
{
    if n < 10 {
        seq![digit_char(n as int)]
    } else {
        decimal(n / 10) + seq![digit_char((n % 10) as int)]
    }
}

/// The decimal representation of `x`, with `-` before a negative number
/// (what `Display` writes for an integer).
pub open spec fn signed_decimal(x: int) -> Seq<char> {
    if x < 0 {
        seq!['-'] + decimal((-x) as nat)
    } else {
        decimal(x as nat)
    }
}

fn digit_str(d: u32) -> (r: &'static str)
    requires
        d < 10,
    ensures
        r@ == seq![digit_char(d as int)],
{
    proof {
        reveal_strlit("0");
        reveal_strlit("1");
        reveal_strlit("2");
        reveal_strlit("3");
        reveal_strlit("4");
        reveal_strlit("5");
        reveal_strlit("6");
        reveal_strlit("7");
        reveal_strlit("8");
        reveal_strlit("9");
    }
    if d == 0 { "0" } else if d == 1 { "1" } else if d == 2 { "2" } else if d == 3 { "3" }
    else if d == 4 { "4" } else if d == 5 { "5" } else if d == 6 { "6" } else if d == 7 { "7" }
    else if d == 8 { "8" } else { "9" }
}

/// The decimal representation of `n`.
pub fn u32_to_decimal(n: u32) -> (r: String)
    ensures
        r@ == decimal(n as nat),
    decreases n,
{
    if n < 10 {
        String::from_str(digit_str(n))
    } else {
        let mut s = u32_to_decimal(n / 10);
        s.append(digit_str(n % 10));
        s
    }
}

/// The decimal representation of `x`, signed.
pub fn i32_to_decimal(x: i32) -> (r: String)
    ensures
        r@ == signed_decimal(x as int),
{
    if x < 0 {
        let m: i64 = -(x as i64);
        let digits = u32_to_decimal(m as u32);
        let r = concat("-", digits.as_str());
        proof {
            reveal_strlit("-");
        }
        r
    } else {
        u32_to_decimal(x as u32)
    }
}

} // verus!
