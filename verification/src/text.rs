//! Character-level text operations used by the gateway's rules: whitespace
//! trimming, prefix/suffix tests, `str::lines` splitting and joining.

use vstd::prelude::*;

verus! {

/// Unicode `White_Space`, the property behind `char::is_whitespace`.
pub open spec fn is_ws(c: char) -> bool {
    ||| ('\u{9}' <= c && c <= '\u{d}')
    ||| c == ' '
    ||| c == '\u{85}'
    ||| c == '\u{a0}'
    ||| c == '\u{1680}'
    ||| ('\u{2000}' <= c && c <= '\u{200a}')
    ||| c == '\u{2028}'
    ||| c == '\u{2029}'
    ||| c == '\u{202f}'
    ||| c == '\u{205f}'
    ||| c == '\u{3000}'
}

/// Unicode general category `Cc`, the property behind `char::is_control`.
pub open spec fn is_control(c: char) -> bool {
    c <= '\u{1f}' || ('\u{7f}' <= c && c <= '\u{9f}')
}

pub fn char_is_ws(c: char) -> (r: bool)
    ensures
        r == is_ws(c),
{
    ('\u{9}' <= c && c <= '\u{d}') || c == ' ' || c == '\u{85}' || c == '\u{a0}' || c
        == '\u{1680}' || ('\u{2000}' <= c && c <= '\u{200a}') || c == '\u{2028}' || c
        == '\u{2029}' || c == '\u{202f}' || c == '\u{205f}' || c == '\u{3000}'
}

pub fn char_is_control(c: char) -> (r: bool)
    ensures
        r == is_control(c),
{
    c <= '\u{1f}' || ('\u{7f}' <= c && c <= '\u{9f}')
}

/// Number of leading whitespace characters.
pub open spec fn lead_ws(s: Seq<char>) -> nat
    decreases s.len(),
{
    if s.len() > 0 && is_ws(s[0]) {
        1 + lead_ws(s.drop_first())
    } else {
        0
    }
}

/// Number of trailing whitespace characters.
pub open spec fn trail_ws(s: Seq<char>) -> nat
    decreases s.len(),
{
    if s.len() > 0 && is_ws(s.last()) {
        1 + trail_ws(s.drop_last())
    } else {
        0
    }
}

/// `str::trim_start`.
pub open spec fn trim_start(s: Seq<char>) -> Seq<char> {
    s.subrange(lead_ws(s) as int, s.len() as int)
}

/// `str::trim_end`.
pub open spec fn trim_end(s: Seq<char>) -> Seq<char> {
    s.subrange(0, s.len() - trail_ws(s))
}

/// `str::trim`.
pub open spec fn trim(s: Seq<char>) -> Seq<char> {
    trim_end(trim_start(s))
}

pub proof fn lemma_lead_ws_bound(s: Seq<char>)
    ensures
        lead_ws(s) <= s.len(),
        forall|i: int| 0 <= i < lead_ws(s) ==> is_ws(#[trigger] s[i]),
        lead_ws(s) < s.len() ==> !is_ws(s[lead_ws(s) as int]),
    decreases s.len(),
{
    if s.len() > 0 && is_ws(s[0]) {
        lemma_lead_ws_bound(s.drop_first());
        assert forall|i: int| 0 <= i < lead_ws(s) implies is_ws(#[trigger] s[i]) by {
            if i > 0 {
                assert(s[i] == s.drop_first()[i - 1]);
            }
        }
    }
}

pub proof fn lemma_trail_ws_bound(s: Seq<char>)
    ensures
        trail_ws(s) <= s.len(),
        forall|i: int| s.len() - trail_ws(s) <= i < s.len() ==> is_ws(#[trigger] s[i]),
        trail_ws(s) < s.len() ==> !is_ws(s[s.len() - trail_ws(s) - 1]),
    decreases s.len(),
{
    if s.len() > 0 && is_ws(s.last()) {
        lemma_trail_ws_bound(s.drop_last());
        assert forall|i: int| s.len() - trail_ws(s) <= i < s.len() implies is_ws(#[trigger] s[i]) by {
            if i < s.len() - 1 {
                assert(s[i] == s.drop_last()[i]);
            }
        }
    }
}

/// A characterisation of `lead_ws` by its two defining properties.
pub proof fn lemma_lead_ws_unique(s: Seq<char>, k: int)
    requires
        0 <= k <= s.len(),
        forall|i: int| 0 <= i < k ==> is_ws(#[trigger] s[i]),
        k < s.len() ==> !is_ws(s[k]),
    ensures
        lead_ws(s) == k,
    decreases s.len(),
{
    if k > 0 {
        assert(is_ws(s[0]));
        let t = s.drop_first();
        assert forall|i: int| 0 <= i < k - 1 implies is_ws(#[trigger] t[i]) by {
            assert(t[i] == s[i + 1]);
        }
        if k - 1 < t.len() {
            assert(t[k - 1] == s[k]);
        }
        lemma_lead_ws_unique(t, k - 1);
    }
}

pub proof fn lemma_trail_ws_unique(s: Seq<char>, k: int)
    requires
        0 <= k <= s.len(),
        forall|i: int| s.len() - k <= i < s.len() ==> is_ws(#[trigger] s[i]),
        k < s.len() ==> !is_ws(s[s.len() - k - 1]),
    ensures
        trail_ws(s) == k,
    decreases s.len(),
{
    if k > 0 {
        assert(is_ws(s[s.len() - 1]));
        let t = s.drop_last();
        assert forall|i: int| t.len() - (k - 1) <= i < t.len() implies is_ws(#[trigger] t[i]) by {
            assert(t[i] == s[i]);
        }
        if k - 1 < t.len() {
            assert(t[t.len() - (k - 1) - 1] == s[s.len() - k - 1]);
        }
        lemma_trail_ws_unique(t, k - 1);
    }
}

/// `str::trim`.
pub fn trim_str(s: &str) -> (r: &str)
    ensures
        r@ == trim(s@),
{
    let n = s.unicode_len();
    let mut a: usize = 0;
    while a < n && char_is_ws(s.get_char(a))
        invariant
            n == s@.len(),
            a <= n,
            forall|i: int| 0 <= i < a ==> is_ws(#[trigger] s@[i]),
        decreases n - a,
    {
        a = a + 1;
    }
    proof {
        lemma_lead_ws_unique(s@, a as int);
    }
    let t = s.substring_char(a, n);
    let m = t.unicode_len();
    let mut k: usize = 0;
    while k < m && char_is_ws(t.get_char(m - 1 - k))
        invariant
            m == t@.len(),
            k <= m,
            forall|i: int| m - k <= i < m ==> is_ws(#[trigger] t@[i]),
        decreases m - k,
    {
        k = k + 1;
    }
    proof {
        lemma_trail_ws_unique(t@, k as int);
    }
    t.substring_char(0, m - k)
}

/// `str::trim_start`.
pub fn trim_start_str(s: &str) -> (r: &str)
    ensures
        r@ == trim_start(s@),
{
    let n = s.unicode_len();
    let mut a: usize = 0;
    while a < n && char_is_ws(s.get_char(a))
        invariant
            n == s@.len(),
            a <= n,
            forall|i: int| 0 <= i < a ==> is_ws(#[trigger] s@[i]),
        decreases n - a,
    {
        a = a + 1;
    }
    proof {
        lemma_lead_ws_unique(s@, a as int);
    }
    s.substring_char(a, n)
}

pub open spec fn is_prefix(p: Seq<char>, s: Seq<char>) -> bool {
    p.len() <= s.len() && s.subrange(0, p.len() as int) == p
}

pub open spec fn is_suffix(p: Seq<char>, s: Seq<char>) -> bool {
    p.len() <= s.len() && s.subrange(s.len() - p.len(), s.len() as int) == p
}

pub fn seq_eq(a: &str, b: &str) -> (r: bool)
    ensures
        r == (a@ == b@),
{
    let n = a.unicode_len();
    let m = b.unicode_len();
    if n != m {
        return false;
    }
    let mut i: usize = 0;
    while i < n
        invariant
            n == a@.len(),
            m == b@.len(),
            n == m,
            i <= n,
            forall|j: int| 0 <= j < i ==> a@[j] == b@[j],
        decreases n - i,
    {
        if a.get_char(i) != b.get_char(i) {
            return false;
        }
        i = i + 1;
    }
    assert(a@ =~= b@);
    true
}

/// `str::starts_with` for a string pattern.
pub fn starts_with(s: &str, p: &str) -> (r: bool)
    ensures
        r == is_prefix(p@, s@),
{
    let n = s.unicode_len();
    let m = p.unicode_len();
    if m > n {
        return false;
    }
    seq_eq(s.substring_char(0, m), p)
}

/// `str::ends_with` for a string pattern.
pub fn ends_with(s: &str, p: &str) -> (r: bool)
    ensures
        r == is_suffix(p@, s@),
{
    let n = s.unicode_len();
    let m = p.unicode_len();
    if m > n {
        return false;
    }
    seq_eq(s.substring_char(n - m, n), p)
}

/// `str::contains` for a character pattern.
pub fn contains_char(s: &str, c: char) -> (r: bool)
    ensures
        r == s@.contains(c),
{
    let n = s.unicode_len();
    let mut i: usize = 0;
    while i < n
        invariant
            n == s@.len(),
            i <= n,
            forall|j: int| 0 <= j < i ==> s@[j] != c,
        decreases n - i,
    {
        if s.get_char(i) == c {
            assert(s@[i as int] == c);
            return true;
        }
        i = i + 1;
    }
    false
}

/// Number of trailing copies of `c`.
pub open spec fn trail_char(s: Seq<char>, c: char) -> nat
    decreases s.len(),
{
    if s.len() > 0 && s.last() == c {
        1 + trail_char(s.drop_last(), c)
    } else {
        0
    }
}

/// `str::trim_end_matches` for a character pattern.
pub open spec fn trim_end_char(s: Seq<char>, c: char) -> Seq<char> {
    s.subrange(0, s.len() - trail_char(s, c))
}

pub proof fn lemma_trail_char_unique(s: Seq<char>, c: char, k: int)
    requires
        0 <= k <= s.len(),
        forall|i: int| s.len() - k <= i < s.len() ==> #[trigger] s[i] == c,
        k < s.len() ==> s[s.len() - k - 1] != c,
    ensures
        trail_char(s, c) == k,
    decreases s.len(),
{
    if k > 0 {
        assert(s[s.len() - 1] == c);
        let t = s.drop_last();
        assert forall|i: int| t.len() - (k - 1) <= i < t.len() implies #[trigger] t[i] == c by {
            assert(t[i] == s[i]);
        }
        if k - 1 < t.len() {
            assert(t[t.len() - (k - 1) - 1] == s[s.len() - k - 1]);
        }
        lemma_trail_char_unique(t, c, k - 1);
    }
}

pub fn trim_end_char_str(s: &str, c: char) -> (r: &str)
    ensures
        r@ == trim_end_char(s@, c),
{
    let m = s.unicode_len();
    let mut k: usize = 0;
    while k < m && s.get_char(m - 1 - k) == c
        invariant
            m == s@.len(),
            k <= m,
            forall|i: int| m - k <= i < m ==> #[trigger] s@[i] == c,
        decreases m - k,
    {
        k = k + 1;
    }
    proof {
        lemma_trail_char_unique(s@, c, k as int);
    }
    s.substring_char(0, m - k)
}

/// Concatenation of two strings.
pub fn concat(a: &str, b: &str) -> (r: String)
    ensures
        r@ == a@ + b@,
{
    let mut r = String::from_str(a);
    r.append(b);
    r
}

/// `str::to_string`.
pub fn to_owned(a: &str) -> (r: String)
    ensures
        r@ == a@,
{
    String::from_str(a)
}


pub open spec fn digit_char(d: nat) -> char {
    ((d + 48) as u8) as char
}

/// Decimal representation, as `usize`'s `Display` writes it.
pub open spec fn decimal(n: nat) -> Seq<char>
    decreases n,
{
    if n < 10 {
        seq![digit_char(n)]
    } else {
        decimal(n / 10) + seq![digit_char(n % 10)]
    }
}

fn digit_str(d: usize) -> (r: &'static str)
    requires
        d < 10,
    ensures
        r@ == seq![digit_char(d as nat)],
{
    proof {
        reveal_strlit("0");
        reveal_strlit("1");
        reveal_strlit("2");
        reveal_strlit("3");
        reveal_strlit("4");
        reveal_strlit("5");
        reveal_strlit("6");
        reveal_strlit("7");
        reveal_strlit("8");
        reveal_strlit("9");
    }
    let r = if d == 0 {
        "0"
    } else if d == 1 {
        "1"
    } else if d == 2 {
        "2"
    } else if d == 3 {
        "3"
    } else if d == 4 {
        "4"
    } else if d == 5 {
        "5"
    } else if d == 6 {
        "6"
    } else if d == 7 {
        "7"
    } else if d == 8 {
        "8"
    } else {
        "9"
    };
    assert(r@ =~= seq![digit_char(d as nat)]);
    r
}

/// The decimal text of a number.
pub fn usize_to_decimal(n: usize) -> (r: String)
    ensures
        r@ == decimal(n as nat),
    decreases n,
{
    if n < 10 {
        to_owned(digit_str(n))
    } else {
        let head = usize_to_decimal(n / 10);
        concat(head.as_str(), digit_str(n % 10))
    }
}

/// The decimal text of a 64-bit number.
pub fn u64_to_decimal(n: u64) -> (r: String)
    ensures
        r@ == decimal(n as nat),
    decreases n,
{
    if n < 10 {
        to_owned(digit_str(n as usize))
    } else {
        let head = u64_to_decimal(n / 10);
        concat(head.as_str(), digit_str((n % 10) as usize))
    }
}

/// Lines joined by `\n`, as `join("\n")` does.
pub open spec fn join_lines(lines: Seq<Seq<char>>) -> Seq<char>
    decreases lines.len(),
{
    if lines.len() == 0 {
        Seq::empty()
    } else if lines.len() == 1 {
        lines[0]
    } else {
        join_lines(lines.drop_last()) + seq!['\n'] + lines.last()
    }
}

/// Lines joined by `\n`, with a final `\n` unless the result is empty.
pub open spec fn join_lines_terminated(lines: Seq<Seq<char>>) -> Seq<char> {
    let j = join_lines(lines);
    if j.len() == 0 {
        j
    } else {
        j + seq!['\n']
    }
}

pub open spec fn views(lines: Seq<String>) -> Seq<Seq<char>> {
    lines.map_values(|s: String| s@)
}

/// Joins lines with `\n` between them (`[String]::join("\n")`).
pub fn join_with_newlines(lines: &[String]) -> (r: String)
    ensures
        r@ == join_lines(views(lines@)),
{
    let mut r = String::new();
    let mut i: usize = 0;
    while i < lines.len()
        invariant
            i <= lines@.len(),
            r@ == join_lines(views(lines@.subrange(0, i as int))),
        decreases lines@.len() - i,
    {
        let ghost prev = views(lines@.subrange(0, i as int));
        assert(views(lines@.subrange(0, i + 1)).drop_last() =~= prev);
        if i == 0 {
            r.append(lines[i].as_str());
            assert(views(lines@.subrange(0, 1)) =~= seq![lines@[0]@]);
        } else {
            r.append("\n");
            proof {
                reveal_strlit("\n");
            }
            r.append(lines[i].as_str());
        }
        i = i + 1;
    }
    assert(lines@.subrange(0, lines@.len() as int) =~= lines@);
    r
}

/// Joins lines with `\n` and ends a non-empty result with `\n`.
pub fn join_lines_with_newline(lines: &[String]) -> (r: String)
    ensures
        r@ == join_lines_terminated(views(lines@)),
{
    let mut r = join_with_newlines(lines);
    if r.as_str().unicode_len() > 0 {
        r.append("\n");
        proof {
            reveal_strlit("\n");
        }
    }
    r
}


/// Position of the first `\n` at or after `i`.
pub open spec fn next_newline(s: Seq<char>, i: int) -> Option<int>
    decreases s.len() - i,
{
    if i < 0 || i >= s.len() {
        None
    } else if s[i] == '\n' {
        Some(i)
    } else {
        next_newline(s, i + 1)
    }
}

/// A line without the `\r` of a `\r\n` ending.
pub open spec fn strip_cr(t: Seq<char>) -> Seq<char> {
    if t.len() > 0 && t.last() == '\r' {
        t.drop_last()
    } else {
        t
    }
}

/// `str::lines`: split at `\n` or `\r\n`; a final line ending is optional.
pub open spec fn str_lines(s: Seq<char>) -> Seq<Seq<char>>
    decreases s.len(),
{
    if s.len() == 0 {
        Seq::empty()
    } else {
        match next_newline(s, 0) {
            None => seq![s],
            Some(i) => if 0 <= i < s.len() {
                seq![strip_cr(s.subrange(0, i))] + str_lines(s.subrange(i + 1, s.len() as int))
            } else {
                Seq::empty()
            },
        }
    }
}

pub proof fn lemma_next_newline_bounds(s: Seq<char>, i: int)
    requires
        0 <= i,
    ensures
        match next_newline(s, i) {
            Some(k) => i <= k < s.len() && s[k] == '\n' && forall|x: int|
                i <= x < k ==> #[trigger] s[x] != '\n',
            None => forall|x: int| i <= x < s.len() ==> #[trigger] s[x] != '\n',
        },
    decreases s.len() - i,
{
    if i < s.len() && s[i] != '\n' {
        lemma_next_newline_bounds(s, i + 1);
    }
}

fn char_at_is_newline(s: &str, n: usize, i: usize) -> (r: bool)
    requires
        n == s@.len(),
        i < n,
    ensures
        r == (s@[i as int] == '\n'),
{
    s.get_char(i) == '\n'
}

/// `str::lines`.
pub fn split_lines(s: &str) -> (r: Vec<String>)
    ensures
        views(r@) == str_lines(s@),
    decreases s@.len(),
{
    let n = s.unicode_len();
    if n == 0 {
        let r: Vec<String> = Vec::new();
        assert(views(r@) =~= Seq::<Seq<char>>::empty());
        return r;
    }
    let mut i: usize = 0;
    while i < n && !char_at_is_newline(s, n, i)
        invariant
            n == s@.len(),
            i <= n,
            next_newline(s@, 0) == next_newline(s@, i as int),
        decreases n - i,
    {
        i = i + 1;
    }
    if i == n {
        let mut r: Vec<String> = Vec::new();
        r.push(to_owned(s));
        assert(views(r@) =~= seq![s@]);
        return r;
    }
    let head = s.substring_char(0, i);
    let m = head.unicode_len();
    let line: &str = if m > 0 && head.get_char(m - 1) == '\r' {
        head.substring_char(0, m - 1)
    } else {
        head
    };
    assert(line@ == strip_cr(s@.subrange(0, i as int)));
    let rest = s.substring_char(i + 1, n);
    let tail = split_lines(rest);
    let mut r: Vec<String> = Vec::new();
    r.push(to_owned(line));
    let mut k: usize = 0;
    while k < tail.len()
        invariant
            k <= tail@.len(),
            r@.len() == k + 1,
            r@[0]@ == line@,
            forall|x: int| 0 <= x < k ==> (#[trigger] r@[x + 1])@ == tail@[x]@,
        decreases tail@.len() - k,
    {
        r.push(tail[k].clone());
        k = k + 1;
    }
    assert forall|x: int| 1 <= x < r@.len() implies (#[trigger] r@[x])@ == tail@[x - 1]@ by {
        assert(r@[(x - 1) + 1] == r@[x]);
    }
    assert(views(r@) =~= seq![line@] + views(tail@));
    r
}

/// Lines joined by `\n` with a final `\n`, the layout of a provider batch
/// input file.
pub fn join_lines_newline_terminated(lines: &[String]) -> (r: String)
    ensures
        r@ == join_lines(views(lines@)) + seq!['\n'],
{
    let mut r = String::new();
    let mut i: usize = 0;
    while i < lines.len()
        invariant
            i <= lines@.len(),
            r@ == join_lines(views(lines@.subrange(0, i as int))),
        decreases lines@.len() - i,
    {
        let ghost prev = views(lines@.subrange(0, i as int));
        assert(views(lines@.subrange(0, i + 1)).drop_last() =~= prev);
        if i == 0 {
            r.append(lines[i].as_str());
            assert(views(lines@.subrange(0, 1)) =~= seq![lines@[0]@]);
        } else {
            r.append("\n");
            proof {
                reveal_strlit("\n");
            }
            r.append(lines[i].as_str());
        }
        i = i + 1;
    }
    assert(lines@.subrange(0, lines@.len() as int) =~= lines@);
    r.append("\n");
    proof {
        reveal_strlit("\n");
    }
    r
}

/// A line that `str::lines` gives back unchanged after a line ending.
pub open spec fn plain_line(l: Seq<char>) -> bool {
    !l.contains('\n') && !(l.len() > 0 && l.last() == '\r')
}

proof fn lemma_lines_of_terminated_line(l: Seq<char>, rest: Seq<char>)
    requires
        plain_line(l),
    ensures
        str_lines(l + seq!['\n'] + rest) == seq![l] + str_lines(rest),
{
    let s = l + seq!['\n'] + rest;
    assert forall|x: int| 0 <= x < l.len() implies #[trigger] s[x] != '\n' by {
        assert(s[x] == l[x]);
        if s[x] == '\n' {
            assert(l.contains('\n'));
        }
    }
    lemma_next_newline_bounds(s, 0);
    assert(s[l.len() as int] == '\n');
    assert(next_newline(s, 0) == Some(l.len() as int));
    assert(s.subrange(0, l.len() as int) =~= l);
    assert(s.subrange((l.len() + 1) as int, s.len() as int) =~= rest);
}

/// Joining plain lines with `\n` and a final `\n`, then splitting with
/// `str::lines`, gives the lines back.
pub proof fn law_lines_of_joined(ls: Seq<Seq<char>>)
    requires
        ls.len() > 0,
        forall|i: int| 0 <= i < ls.len() ==> plain_line(#[trigger] ls[i]),
    ensures
        str_lines(join_lines(ls) + seq!['\n']) == ls,
    decreases ls.len(),
{
    if ls.len() == 1 {
        assert(plain_line(ls[0]));
        lemma_lines_of_terminated_line(ls[0], Seq::empty());
        assert(ls[0] + seq!['\n'] + Seq::<char>::empty() =~= join_lines(ls) + seq!['\n']);
        assert(seq![ls[0]] =~= ls);
    } else {
        let init = ls.drop_last();
        assert forall|i: int| 0 <= i < init.len() implies plain_line(#[trigger] init[i]) by {
            assert(init[i] == ls[i]);
        }
        lemma_lines_after_prefix(init, ls.last());
        assert(init.push(ls.last()) =~= ls);
    }
}

proof fn lemma_lines_after_prefix(ls: Seq<Seq<char>>, last: Seq<char>)
    requires
        ls.len() > 0,
        forall|i: int| 0 <= i < ls.len() ==> plain_line(#[trigger] ls[i]),
        plain_line(last),
    ensures
        str_lines(join_lines(ls) + seq!['\n'] + last + seq!['\n']) == ls.push(last),
    decreases ls.len(),
{
    let tail = last + seq!['\n'];
    if ls.len() == 1 {
        assert(plain_line(ls[0]));
        lemma_lines_of_terminated_line(ls[0], tail);
        lemma_lines_of_terminated_line(last, Seq::empty());
        assert(last + seq!['\n'] + Seq::<char>::empty() =~= tail);
        assert(join_lines(ls) + seq!['\n'] + last + seq!['\n'] =~= ls[0] + seq!['\n'] + tail);
        assert(seq![ls[0]] + seq![last] =~= ls.push(last));
    } else {
        let first = ls[0];
        let rest = ls.drop_first();
        assert(plain_line(first));
        assert forall|i: int| 0 <= i < rest.len() implies plain_line(#[trigger] rest[i]) by {
            assert(rest[i] == ls[i + 1]);
        }
        lemma_join_first(ls);
        lemma_lines_after_prefix(rest, last);
        lemma_lines_of_terminated_line(first, join_lines(rest) + seq!['\n'] + last + seq!['\n']);
        assert(join_lines(ls) + seq!['\n'] + last + seq!['\n'] =~= first + seq!['\n'] + (join_lines(
            rest,
        ) + seq!['\n'] + last + seq!['\n']));
        assert(seq![first] + rest.push(last) =~= ls.push(last));
    }
}

/// `join_lines` peels off its first line.
pub proof fn lemma_join_first(ls: Seq<Seq<char>>)
    requires
        ls.len() >= 2,
    ensures
        join_lines(ls) == ls[0] + seq!['\n'] + join_lines(ls.drop_first()),
    decreases ls.len(),
{
    if ls.len() == 2 {
        assert(ls.drop_last() =~= seq![ls[0]]);
        assert(ls.drop_first() =~= seq![ls[1]]);
        assert(join_lines(seq![ls[0]]) == ls[0]);
        assert(join_lines(seq![ls[1]]) == ls[1]);
        assert(ls.last() == ls[1]);
        assert(join_lines(ls) =~= ls[0] + seq!['\n'] + ls[1]);
    } else {
        let init = ls.drop_last();
        let df = ls.drop_first();
        lemma_join_first(init);
        assert(init.drop_first() =~= df.drop_last());
        assert(df.last() == ls.last());
        assert(init[0] == ls[0]);
        assert(join_lines(df) == join_lines(df.drop_last()) + seq!['\n'] + df.last());
        assert(join_lines(ls) == join_lines(init) + seq!['\n'] + ls.last());
        assert(join_lines(ls) =~= ls[0] + seq!['\n'] + join_lines(df));
    }
}


/// The words found so far and the word being read, after reading `s`.
pub open spec fn ws_scan(s: Seq<char>) -> (Seq<Seq<char>>, Seq<char>)
    decreases s.len(),
{
    if s.len() == 0 {
        (Seq::empty(), Seq::empty())
    } else {
        let (done, cur) = ws_scan(s.drop_last());
        if is_ws(s.last()) {
            if cur.len() > 0 {
                (done.push(cur), Seq::empty())
            } else {
                (done, Seq::empty())
            }
        } else {
            (done, cur.push(s.last()))
        }
    }
}

/// `str::split_whitespace`: the maximal runs of non-whitespace characters.
pub open spec fn ws_words(s: Seq<char>) -> Seq<Seq<char>> {
    let (done, cur) = ws_scan(s);
    if cur.len() > 0 {
        done.push(cur)
    } else {
        done
    }
}

/// `str::split_whitespace`, collected.
pub fn split_whitespace(s: &str) -> (r: Vec<String>)
    ensures
        views(r@) == ws_words(s@),
{
    let n = s.unicode_len();
    let mut done: Vec<String> = Vec::new();
    let mut start: usize = 0;
    let mut i: usize = 0;
    while i < n
        invariant
            n == s@.len(),
            start <= i <= n,
            ws_scan(s@.subrange(0, i as int)) == (views(done@), s@.subrange(start as int, i as int)),
        decreases n - i,
    {
        let c = s.get_char(i);
        let ghost pre = s@.subrange(0, i as int);
        assert(s@.subrange(0, i + 1).drop_last() =~= pre);
        assert(s@.subrange(0, i + 1).last() == c);
        if char_is_ws(c) {
            if start < i {
                let w = s.substring_char(start, i);
                let ghost old_done = views(done@);
                done.push(to_owned(w));
                assert(views(done@) =~= old_done.push(s@.subrange(start as int, i as int)));
            }
            start = i + 1;
            assert(s@.subrange(start as int, i + 1) =~= Seq::<char>::empty());
        } else {
            assert(s@.subrange(start as int, i + 1) =~= s@.subrange(start as int, i as int).push(c));
        }
        i = i + 1;
    }
    assert(s@.subrange(0, n as int) =~= s@);
    if start < n {
        let w = s.substring_char(start, n);
        let ghost old_done = views(done@);
        done.push(to_owned(w));
        assert(views(done@) =~= old_done.push(s@.subrange(start as int, n as int)));
    }
    done
}

/// What `std::str::from_utf8` gives for bytes: their text where they are
/// valid UTF-8, else nothing.
pub uninterp spec fn utf8_text(bytes: Seq<u8>) -> Option<Seq<char>>;

/// `std::str::from_utf8`, the error dropped. UTF-8 encodes each ASCII
/// character as the one byte of its code, so ASCII bytes are valid and
/// give one character per byte.
#[verifier::external_body]
pub(crate) fn str_from_utf8(bytes: &[u8]) -> (r: Option<&str>)
    ensures
        match r {
            Some(s) => utf8_text(bytes@) == Some(s@) && ((forall|i: int|
                0 <= i < bytes@.len() ==> #[trigger] bytes@[i] < 128) ==> s@ == bytes@.map_values(
                |b: u8| b as char,
            )),
            None => utf8_text(bytes@) is None && !(forall|i: int|
                0 <= i < bytes@.len() ==> #[trigger] bytes@[i] < 128),
        },
{
    std::str::from_utf8(bytes).ok()
}

} // verus!
