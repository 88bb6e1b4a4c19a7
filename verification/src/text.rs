//! Character-level string operations with their specifications.

use vstd::prelude::*;
use vstd::string::*;

verus! {

/// `p` is a prefix of `s`.
pub open spec fn is_prefix(p: Seq<char>, s: Seq<char>) -> bool {
    p.len() <= s.len() && s.subrange(0, p.len() as int) == p
}

/// `pat` occurs in `s` starting at index `i`.
pub open spec fn occurs_at(s: Seq<char>, pat: Seq<char>, i: int) -> bool {
    0 <= i && i + pat.len() <= s.len() && s.subrange(i, i + pat.len()) == pat
}

/// `pat` occurs somewhere in `s`.
pub open spec fn has_substr(s: Seq<char>, pat: Seq<char>) -> bool {
    exists|i: int| occurs_at(s, pat, i)
}

/// ASCII upper-case letters map to lower case; every other character is kept.
pub open spec fn ascii_lower(c: char) -> char {
    if 'A' <= c && c <= 'Z' {
        ((c as u32) + 32) as char
    } else {
        c
    }
}

pub open spec fn lower_seq(s: Seq<char>) -> Seq<char> {
    s.map_values(|c: char| ascii_lower(c))
}

/// Appends one character to a string.
/// Calls `String::push`, which appends the character at the end.
#[verifier::external_body]
pub fn push_char(s: &mut String, c: char)
    ensures
        final(s)@ == old(s)@.push(c),
{
    s.push(c);
}

/// The characters of a string, in order.
pub fn chars_of(s: &str) -> (v: Vec<char>)
    ensures
        v@ == s@,
{
    let n = s.unicode_len();
    let mut v: Vec<char> = Vec::new();
    let mut i: usize = 0;
    while i < n
        invariant
            n == s@.len(),
            i <= n,
            v@ == s@.subrange(0, i as int),
        decreases n - i,
    {
        let c = s.get_char(i);
        v.push(c);
        i = i + 1;
        assert(v@ =~= s@.subrange(0, i as int));
    }
    assert(v@ =~= s@);
    v
}

/// A string holding exactly the given characters.
pub fn string_from(v: &Vec<char>) -> (s: String)
    ensures
        s@ == v@,
{
    let mut s = String::new();
    let mut i: usize = 0;
    while i < v.len()
        invariant
            i <= v.len(),
            s@ == v@.subrange(0, i as int),
        decreases v.len() - i,
    {
        push_char(&mut s, v[i]);
        i = i + 1;
        assert(s@ =~= v@.subrange(0, i as int));
    }
    assert(s@ =~= v@);
    s
}

/// An owned copy of a string slice.
pub fn owned(s: &str) -> (r: String)
    ensures
        r@ == s@,
{
    let mut r = String::new();
    r.append(s);
    r
}

/// Two strings joined.
pub fn concat2(a: &str, b: &str) -> (r: String)
    ensures
        r@ == a@ + b@,
{
    let mut r = String::new();
    r.append(a);
    r.append(b);
    r
}

/// Three strings joined.
pub fn concat3(a: &str, b: &str, c: &str) -> (r: String)
    ensures
        r@ == a@ + b@ + c@,
{
    let mut r = String::new();
    r.append(a);
    r.append(b);
    r.append(c);
    r
}

/// Whether a string holds a character.
pub fn contains_char(s: &str, c: char) -> (r: bool)
    ensures
        r == s@.contains(c),
{
    let v = chars_of(s);
    let mut i: usize = 0;
    while i < v.len()
        invariant
            i <= v.len(),
            v@ == s@,
            forall|j: int| 0 <= j < i ==> v@[j] != c,
        decreases v.len() - i,
    {
        if v[i] == c {
            return true;
        }
        i = i + 1;
    }
    false
}

/// Appends an owned copy of a string slice to a list of strings.
pub fn push_owned(v: &mut Vec<String>, s: &str)
    ensures
        string_views(final(v)@) == string_views(old(v)@).push(s@),
{
    v.push(owned(s));
    assert(string_views(v@) =~= string_views(old(v)@).push(s@));
}

/// Whether `pat` occurs in `s` at index `i`.
pub fn occurs_at_exec(s: &Vec<char>, pat: &Vec<char>, i: usize) -> (r: bool)
    ensures
        r == occurs_at(s@, pat@, i as int),
{
    if i > s.len() || pat.len() > s.len() - i {
        return false;
    }
    let mut k: usize = 0;
    while k < pat.len()
        invariant
            i + pat.len() <= s.len(),
            k <= pat.len(),
            forall|j: int| 0 <= j < k ==> s@[i + j] == pat@[j],
        decreases pat.len() - k,
    {
        if s[i + k] != pat[k] {
            assert(s@.subrange(i as int, i + pat.len())[k as int] != pat@[k as int]);
            return false;
        }
        k = k + 1;
    }
    assert(s@.subrange(i as int, i + pat@.len()) =~= pat@);
    true
}

/// The first index at or after `start` where `pat` occurs in `s`.
pub fn find_from(s: &Vec<char>, pat: &Vec<char>, start: usize) -> (r: Option<usize>)
    ensures
        match r {
            Some(i) => start <= i && occurs_at(s@, pat@, i as int)
                && forall|j: int| start <= j < i ==> !occurs_at(s@, pat@, j),
            None => forall|j: int| start <= j ==> !occurs_at(s@, pat@, j),
        },
{
    if start > s.len() || pat.len() > s.len() - start {
        return None;
    }
    let last = s.len() - pat.len();
    let mut i = start;
    while i <= last
        invariant
            last + pat.len() == s.len(),
            start <= i,
            forall|j: int| start <= j < i ==> !occurs_at(s@, pat@, j),
        decreases last + 1 - i,
    {
        if occurs_at_exec(s, pat, i) {
            return Some(i);
        }
        if i == last {
            return None;
        }
        i = i + 1;
    }
    None
}

/// Whether `pat` occurs in `s`.
pub fn contains_str(s: &str, pat: &str) -> (r: bool)
    ensures
        r == has_substr(s@, pat@),
{
    let sv = chars_of(s);
    let pv = chars_of(pat);
    match find_from(&sv, &pv, 0) {
        Some(i) => true,
        None => {
            assert forall|j: int| !occurs_at(s@, pat@, j) by {
                if j < 0 {
                } else {
                    assert(!occurs_at(sv@, pv@, j));
                }
            }
            false
        },
    }
}

/// Whether `p` is a prefix of `s`.
pub fn starts_with_str(s: &str, p: &str) -> (r: bool)
    ensures
        r == is_prefix(p@, s@),
{
    let sv = chars_of(s);
    let pv = chars_of(p);
    let r = occurs_at_exec(&sv, &pv, 0);
    assert(occurs_at(s@, p@, 0) == is_prefix(p@, s@));
    r
}

/// Whether two strings hold the same characters.
pub fn str_eq(a: &str, b: &str) -> (r: bool)
    ensures
        r == (a@ == b@),
{
    let av = chars_of(a);
    let bv = chars_of(b);
    if av.len() != bv.len() {
        return false;
    }
    let r = occurs_at_exec(&av, &bv, 0);
    proof {
        assert(a@ =~= a@.subrange(0, b@.len() as int));
    }
    r
}

/// The ASCII lower-case form of a character.
pub fn ascii_lower_char(c: char) -> (r: char)
    ensures
        r == ascii_lower(c),
{
    if 'A' <= c && c <= 'Z' {
        let b: u8 = (c as u32 + 32) as u8;
        b as char
    } else {
        c
    }
}

/// The string with every ASCII upper-case letter turned to lower case.
pub fn to_ascii_lowercase(s: &str) -> (r: String)
    ensures
        r@ == lower_seq(s@),
{
    let v = chars_of(s);
    let mut out = String::new();
    let mut i: usize = 0;
    while i < v.len()
        invariant
            v@ == s@,
            i <= v.len(),
            out@ == lower_seq(s@).subrange(0, i as int),
        decreases v.len() - i,
    {
        let c = ascii_lower_char(v[i]);
        push_char(&mut out, c);
        i = i + 1;
        assert(out@ =~= lower_seq(s@).subrange(0, i as int));
    }
    assert(out@ =~= lower_seq(s@));
    out
}


/// The Unicode `White_Space` characters, which `char::is_whitespace` recognises.
pub open spec fn is_ws(c: char) -> bool {
    ||| ('\t' <= c && c <= '\r')
    ||| c == ' '
    ||| c == '\u{85}'
    ||| c == '\u{a0}'
    ||| c == '\u{1680}'
    ||| ('\u{2000}' <= c && c <= '\u{200a}')
    ||| c == '\u{2028}'
    ||| c == '\u{2029}'
    ||| c == '\u{202f}'
    ||| c == '\u{205f}'
    ||| c == '\u{3000}'
}

pub fn is_ws_char(c: char) -> (r: bool)
    ensures
        r == is_ws(c),
{
    ('\t' <= c && c <= '\r') || c == ' ' || c == '\u{85}' || c == '\u{a0}' || c == '\u{1680}'
        || ('\u{2000}' <= c && c <= '\u{200a}') || c == '\u{2028}' || c == '\u{2029}'
        || c == '\u{202f}' || c == '\u{205f}' || c == '\u{3000}'
}

/// `s` without its leading whitespace.
pub open spec fn trim_start(s: Seq<char>) -> Seq<char>
    decreases s.len(),
{
    if s.len() > 0 && is_ws(s[0]) {
        trim_start(s.drop_first())
    } else {
        s
    }
}

/// `s` without its trailing whitespace.
pub open spec fn trim_end(s: Seq<char>) -> Seq<char>
    decreases s.len(),
{
    if s.len() > 0 && is_ws(s.last()) {
        trim_end(s.drop_last())
    } else {
        s
    }
}

/// `s` without leading and trailing whitespace, as `str::trim` gives it.
pub open spec fn trim(s: Seq<char>) -> Seq<char> {
    trim_end(trim_start(s))
}

proof fn lemma_trim_start_skip(s: Seq<char>, i: int)
    requires
        0 <= i <= s.len(),
        forall|j: int| 0 <= j < i ==> is_ws(s[j]),
    ensures
        trim_start(s) == trim_start(s.subrange(i, s.len() as int)),
    decreases i,
{
    if i > 0 {
        assert(s.drop_first().subrange(i - 1, s.drop_first().len() as int) =~= s.subrange(
            i,
            s.len() as int,
        ));
        lemma_trim_start_skip(s.drop_first(), i - 1);
    } else {
        assert(s.subrange(0, s.len() as int) =~= s);
    }
}

proof fn lemma_trim_end_skip(s: Seq<char>, k: int)
    requires
        0 <= k <= s.len(),
        forall|j: int| k <= j < s.len() ==> is_ws(s[j]),
    ensures
        trim_end(s) == trim_end(s.subrange(0, k)),
    decreases s.len() - k,
{
    if k < s.len() {
        assert(s.drop_last().subrange(0, k) =~= s.subrange(0, k));
        lemma_trim_end_skip(s.drop_last(), k);
    } else {
        assert(s.subrange(0, s.len() as int) =~= s);
    }
}

/// The characters of `s` between its first and last non-whitespace character.
pub fn trim_chars(v: &Vec<char>) -> (r: Vec<char>)
    ensures
        r@ == trim(v@),
{
    let n = v.len();
    let mut a: usize = 0;
    while a < n && is_ws_char(v[a])
        invariant
            n == v@.len(),
            a <= n,
            forall|j: int| 0 <= j < a ==> is_ws(v@[j]),
        decreases n - a,
    {
        a = a + 1;
    }
    proof {
        lemma_trim_start_skip(v@, a as int);
    }
    let ghost t = v@.subrange(a as int, n as int);
    assert(trim_start(t) == t);
    let mut b: usize = n;
    while b > a && is_ws_char(v[b - 1])
        invariant
            n == v@.len(),
            a <= b <= n,
            t == v@.subrange(a as int, n as int),
            forall|j: int| b <= j < n ==> is_ws(v@[j]),
        decreases b,
    {
        b = b - 1;
    }
    proof {
        assert forall|j: int| (b - a) <= j < t.len() implies is_ws(t[j]) by {
            assert(t[j] == v@[a + j]);
        }
        lemma_trim_end_skip(t, (b - a) as int);
        assert(t.subrange(0, (b - a) as int) =~= v@.subrange(a as int, b as int));
        if b > a {
            assert(v@.subrange(a as int, b as int).last() == v@[b - 1]);
        }
    }
    let mut r: Vec<char> = Vec::new();
    let mut i = a;
    while i < b
        invariant
            a <= i <= b <= n,
            n == v@.len(),
            r@ == v@.subrange(a as int, i as int),
        decreases b - i,
    {
        r.push(v[i]);
        i = i + 1;
        assert(r@ =~= v@.subrange(a as int, i as int));
    }
    r
}

proof fn lemma_trim_start_idem(s: Seq<char>)
    ensures
        trim_start(trim_start(s)) == trim_start(s),
        trim_start(s).len() > 0 ==> !is_ws(trim_start(s)[0]),
    decreases s.len(),
{
    if s.len() > 0 && is_ws(s[0]) {
        lemma_trim_start_idem(s.drop_first());
    }
}

proof fn lemma_trim_end_keeps_start(s: Seq<char>)
    requires
        s.len() > 0 ==> !is_ws(s[0]),
    ensures
        trim_end(s).len() > 0 ==> !is_ws(trim_end(s)[0]),
        trim_end(s).len() > 0 ==> !is_ws(trim_end(s).last()),
        trim_end(s).len() <= s.len(),
        trim_end(s) == s.subrange(0, trim_end(s).len() as int),
    decreases s.len(),
{
    if s.len() > 0 && is_ws(s.last()) {
        lemma_trim_end_keeps_start(s.drop_last());
        assert(s.drop_last().subrange(0, trim_end(s).len() as int) =~= s.subrange(
            0,
            trim_end(s).len() as int,
        ));
    } else {
        assert(s.subrange(0, s.len() as int) =~= s);
    }
}

/// Trimming twice is trimming once.
pub proof fn lemma_trim_idempotent(s: Seq<char>)
    ensures
        trim(trim(s)) == trim(s),
{
    lemma_trim_start_idem(s);
    let t = trim_start(s);
    lemma_trim_end_keeps_start(t);
    let u = trim_end(t);
    assert(trim_start(u) == u);
    assert(trim_end(u) == u);
}

/// `str::trim`, returning an owned string.
pub fn trim_str(s: &str) -> (r: String)
    ensures
        r@ == trim(s@),
{
    let v = chars_of(s);
    let t = trim_chars(&v);
    string_from(&t)
}

/// Whether a string is empty or holds only whitespace.
pub fn is_blank(s: &str) -> (r: bool)
    ensures
        r == (trim(s@).len() == 0),
{
    let v = chars_of(s);
    let t = trim_chars(&v);
    t.len() == 0
}

/// The whitespace-separated words of `s`, as `str::split_whitespace` yields them.
pub open spec fn words(s: Seq<char>) -> Seq<Seq<char>>
    decreases s.len(),
{
    if s.len() == 0 {
        seq![]
    } else {
        let w = words(s.drop_last());
        let c = s.last();
        if is_ws(c) {
            w
        } else if s.len() >= 2 && !is_ws(s[s.len() - 2]) && w.len() > 0 {
            w.update(w.len() - 1, w.last().push(c))
        } else {
            w.push(seq![c])
        }
    }
}

pub open spec fn views(v: Seq<Vec<char>>) -> Seq<Seq<char>> {
    v.map_values(|x: Vec<char>| x@)
}

/// The whitespace-separated words of a string.
pub fn split_words(s: &str) -> (r: Vec<Vec<char>>)
    ensures
        views(r@) == words(s@),
{
    let v = chars_of(s);
    let mut out: Vec<Vec<char>> = Vec::new();
    let mut i: usize = 0;
    while i < v.len()
        invariant
            v@ == s@,
            i <= v.len(),
            views(out@) == words(s@.subrange(0, i as int)),
        decreases v.len() - i,
    {
        let c = v[i];
        let ghost prev = s@.subrange(0, i as int);
        let ghost next = s@.subrange(0, i + 1);
        assert(next.drop_last() =~= prev);
        assert(next.last() == c);
        if is_ws_char(c) {
        } else if i >= 1 && !is_ws_char(v[i - 1]) && out.len() > 0 {
            assert(next[next.len() - 2] == v@[i - 1]);
            let mut last = out.pop().unwrap();
            last.push(c);
            out.push(last);
            assert(views(out@) =~= words(prev).update(words(prev).len() - 1, words(prev).last().push(c)));
        } else {
            let mut w: Vec<char> = Vec::new();
            w.push(c);
            out.push(w);
            assert(views(out@) =~= words(prev).push(seq![c]));
        }
        i = i + 1;
    }
    assert(s@.subrange(0, v.len() as int) =~= s@);
    out
}


/// The pieces of `s` that `str::split_inclusive('\n')` yields: each ends in a
/// newline, except perhaps the last.
pub open spec fn nl_pieces(s: Seq<char>) -> Seq<Seq<char>>
    decreases s.len(),
{
    if s.len() == 0 {
        seq![]
    } else {
        let p = nl_pieces(s.drop_last());
        let c = s.last();
        if p.len() == 0 || p.last().last() == '\n' {
            p.push(seq![c])
        } else {
            p.update(p.len() - 1, p.last().push(c))
        }
    }
}

/// A piece without its line ending (`\n` or `\r\n`).
pub open spec fn strip_eol(p: Seq<char>) -> Seq<char> {
    if p.len() > 0 && p.last() == '\n' {
        let q = p.drop_last();
        if q.len() > 0 && q.last() == '\r' {
            q.drop_last()
        } else {
            q
        }
    } else {
        p
    }
}

/// The lines of `s`, as `str::lines` yields them.
pub open spec fn lines(s: Seq<char>) -> Seq<Seq<char>> {
    nl_pieces(s).map_values(|p: Seq<char>| strip_eol(p))
}

/// A piece's characters without its line ending.
fn strip_eol_chars(p: Vec<char>) -> (r: Vec<char>)
    ensures
        r@ == strip_eol(p@),
{
    let mut q = p;
    if q.len() > 0 && q[q.len() - 1] == '\n' {
        q.pop();
        if q.len() > 0 && q[q.len() - 1] == '\r' {
            q.pop();
        }
    }
    q
}

/// The lines of a string, without their line endings.
pub fn lines_of(s: &str) -> (r: Vec<Vec<char>>)
    ensures
        views(r@) == lines(s@),
{
    let v = chars_of(s);
    let mut pieces: Vec<Vec<char>> = Vec::new();
    let mut i: usize = 0;
    while i < v.len()
        invariant
            v@ == s@,
            i <= v.len(),
            views(pieces@) == nl_pieces(s@.subrange(0, i as int)),
            forall|k: int| 0 <= k < pieces@.len() ==> pieces@[k]@.len() > 0,
        decreases v.len() - i,
    {
        let c = v[i];
        let ghost prev = s@.subrange(0, i as int);
        let ghost next = s@.subrange(0, i + 1);
        assert(next.drop_last() =~= prev);
        assert(next.last() == c);
        let n = pieces.len();
        if n == 0 || pieces[n - 1][pieces[n - 1].len() - 1] == '\n' {
            let mut w: Vec<char> = Vec::new();
            w.push(c);
            pieces.push(w);
            assert(views(pieces@) =~= nl_pieces(prev).push(seq![c]));
        } else {
            let mut last = pieces.pop().unwrap();
            last.push(c);
            pieces.push(last);
            assert(views(pieces@) =~= nl_pieces(prev).update(
                nl_pieces(prev).len() - 1,
                nl_pieces(prev).last().push(c),
            ));
        }
        i = i + 1;
    }
    assert(s@.subrange(0, v.len() as int) =~= s@);
    let mut out: Vec<Vec<char>> = Vec::new();
    let mut k: usize = 0;
    while k < pieces.len()
        invariant
            k <= pieces.len(),
            views(pieces@) == nl_pieces(s@),
            views(out@) == lines(s@).subrange(0, k as int),
        decreases pieces.len() - k,
    {
        let p = copy_chars(&pieces[k]);
        assert(views(pieces@)[k as int] == pieces@[k as int]@);
        assert(p@ == nl_pieces(s@)[k as int]);
        let q = strip_eol_chars(p);
        assert(q@ == lines(s@)[k as int]);
        let ghost old_out = views(out@);
        out.push(q);
        assert(views(out@) =~= old_out.push(lines(s@)[k as int]));
        assert(lines(s@).len() == pieces@.len());
        k = k + 1;
        assert(views(out@) =~= lines(s@).subrange(0, k as int));
    }
    assert(views(out@) =~= lines(s@));
    out
}

/// Every non-overlapping occurrence of `from` in `s`, leftmost first,
/// replaced by `to`, as `str::replace` does; an empty `from` matches
/// before every character and at the end.
pub open spec fn replace_all(s: Seq<char>, from: Seq<char>, to: Seq<char>) -> Seq<char>
    decreases s.len(),
{
    if s.len() == 0 {
        if from.len() == 0 {
            to
        } else {
            seq![]
        }
    } else if from.len() == 0 {
        to + seq![s[0]] + replace_all(s.drop_first(), from, to)
    } else if is_prefix(from, s) {
        to + replace_all(s.subrange(from.len() as int, s.len() as int), from, to)
    } else {
        seq![s[0]] + replace_all(s.drop_first(), from, to)
    }
}

/// The first occurrence of `from` in `s` replaced by `to`, as
/// `str::replacen(from, to, 1)` does.
pub open spec fn replace_first(s: Seq<char>, from: Seq<char>, to: Seq<char>) -> Seq<char>
    decreases s.len(),
{
    if is_prefix(from, s) {
        to + s.subrange(from.len() as int, s.len() as int)
    } else if s.len() == 0 {
        s
    } else {
        seq![s[0]] + replace_first(s.drop_first(), from, to)
    }
}

proof fn lemma_tail_prefix(s: Seq<char>, from: Seq<char>, i: int)
    requires
        0 <= i < s.len(),
    ensures
        is_prefix(from, s.subrange(i, s.len() as int)) == occurs_at(s, from, i),
        s.subrange(i, s.len() as int).drop_first() =~= s.subrange(i + 1, s.len() as int),
        s.subrange(i, s.len() as int)[0] == s[i],
{
    let t = s.subrange(i, s.len() as int);
    if from.len() <= t.len() {
        assert(t.subrange(0, from.len() as int) =~= s.subrange(i, i + from.len()));
    }
}

/// A fresh vector with the same characters.
pub fn copy_chars(v: &Vec<char>) -> (r: Vec<char>)
    ensures
        r@ == v@,
{
    let mut r: Vec<char> = Vec::new();
    push_all(&mut r, v);
    assert(r@ =~= v@);
    r
}

fn push_all(out: &mut Vec<char>, xs: &Vec<char>)
    ensures
        final(out)@ == old(out)@ + xs@,
{
    let mut k: usize = 0;
    while k < xs.len()
        invariant
            k <= xs.len(),
            out@ == old(out)@ + xs@.subrange(0, k as int),
        decreases xs.len() - k,
    {
        out.push(xs[k]);
        k = k + 1;
        assert(out@ =~= old(out)@ + xs@.subrange(0, k as int));
    }
    assert(xs@.subrange(0, xs@.len() as int) =~= xs@);
}

/// `str::replace` on character vectors.
pub fn replace_all_chars(s: &Vec<char>, from: &Vec<char>, to: &Vec<char>) -> (r: Vec<char>)
    ensures
        r@ == replace_all(s@, from@, to@),
{
    let n = s.len();
    let mut out: Vec<char> = Vec::new();
    let mut i: usize = 0;
    assert(s@.subrange(0, n as int) =~= s@);
    assert(out@ + replace_all(s@, from@, to@) =~= replace_all(s@, from@, to@));
    while i < n
        invariant
            n == s@.len(),
            i <= n,
            out@ + replace_all(s@.subrange(i as int, n as int), from@, to@) == replace_all(
                s@,
                from@,
                to@,
            ),
        decreases n - i,
    {
        let ghost t = s@.subrange(i as int, n as int);
        proof {
            lemma_tail_prefix(s@, from@, i as int);
        }
        if from.len() == 0 {
            push_all(&mut out, to);
            out.push(s[i]);
            i = i + 1;
            assert(out@ + replace_all(s@.subrange(i as int, n as int), from@, to@) =~= replace_all(
                s@,
                from@,
                to@,
            ));
        } else if occurs_at_exec(s, from, i) {
            push_all(&mut out, to);
            assert(t.subrange(from@.len() as int, t.len() as int) =~= s@.subrange(
                i + from@.len(),
                n as int,
            ));
            i = i + from.len();
            assert(out@ + replace_all(s@.subrange(i as int, n as int), from@, to@) =~= replace_all(
                s@,
                from@,
                to@,
            ));
        } else {
            out.push(s[i]);
            i = i + 1;
            assert(out@ + replace_all(s@.subrange(i as int, n as int), from@, to@) =~= replace_all(
                s@,
                from@,
                to@,
            ));
        }
    }
    if from.len() == 0 {
        push_all(&mut out, to);
    }
    assert(out@ =~= replace_all(s@, from@, to@));
    out
}

/// `str::replacen(from, to, 1)` on character vectors.
pub fn replace_first_chars(s: &Vec<char>, from: &Vec<char>, to: &Vec<char>) -> (r: Vec<char>)
    ensures
        r@ == replace_first(s@, from@, to@),
{
    let n = s.len();
    let mut out: Vec<char> = Vec::new();
    let mut i: usize = 0;
    assert(s@.subrange(0, n as int) =~= s@);
    assert(out@ =~= s@.subrange(0, 0));
    assert(out@ + replace_first(s@, from@, to@) =~= replace_first(s@, from@, to@));
    loop
        invariant
            n == s@.len(),
            i <= n,
            out@ == s@.subrange(0, i as int),
            replace_first(s@, from@, to@) == out@ + replace_first(
                s@.subrange(i as int, n as int),
                from@,
                to@,
            ),
        decreases n - i,
    {
        let ghost t = s@.subrange(i as int, n as int);
        if occurs_at_exec(s, from, i) {
            assert(is_prefix(from@, t)) by {
                assert(t.subrange(0, from@.len() as int) =~= s@.subrange(
                    i as int,
                    i + from@.len(),
                ));
            }
            push_all(&mut out, to);
            let mut k = i + from.len();
            while k < n
                invariant
                    i + from@.len() <= k <= n,
                    n == s@.len(),
                    out@ == s@.subrange(0, i as int) + to@ + s@.subrange(
                        i + from@.len(),
                        k as int,
                    ),
                decreases n - k,
            {
                out.push(s[k]);
                k = k + 1;
                assert(out@ =~= s@.subrange(0, i as int) + to@ + s@.subrange(
                    i + from@.len(),
                    k as int,
                ));
            }
            assert(t.subrange(from@.len() as int, t.len() as int) =~= s@.subrange(
                i + from@.len(),
                n as int,
            ));
            assert(out@ =~= replace_first(s@, from@, to@));
            return out;
        }
        if i == n {
            assert(!is_prefix(from@, t)) by {
                if from@.len() <= t.len() {
                    assert(t.subrange(0, from@.len() as int) =~= s@.subrange(
                        i as int,
                        i + from@.len(),
                    ));
                }
            }
            assert(out@ =~= replace_first(s@, from@, to@));
            return out;
        }
        proof {
            lemma_tail_prefix(s@, from@, i as int);
        }
        out.push(s[i]);
        i = i + 1;
        assert(out@ =~= s@.subrange(0, i as int));
        assert(replace_first(s@, from@, to@) =~= out@ + replace_first(
            s@.subrange(i as int, n as int),
            from@,
            to@,
        ));
    }
}


/// The character of a decimal digit.
pub open spec fn digit_char(d: nat) -> char {
    (d + 48) as char
}

/// The decimal representation of `n`, without leading zeros.
pub open spec fn decimal(n: nat) -> Seq<char>
    decreases n,
{
    if n < 10 {
        seq![digit_char(n)]
    } else {
        decimal(n / 10).push(digit_char(n % 10))
    }
}

fn digit_to_char(d: u8) -> (c: char)
    requires
        d < 10,
    ensures
        c == digit_char(d as nat),
{
    (d + 48) as char
}

/// The decimal representation of an unsigned integer, as `Display` prints it.
pub fn decimal_string(n: u128) -> (r: String)
    ensures
        r@ == decimal(n as nat),
{
    let mut q = n;
    let mut rev: Vec<char> = Vec::new();
    loop
        invariant_except_break
            decimal(n as nat) == decimal(q as nat) + rev@.reverse(),
        ensures
            decimal(n as nat) == rev@.reverse(),
        decreases q,
    {
        let d = (q % 10) as u8;
        let ghost old_rev = rev@;
        rev.push(digit_to_char(d));
        assert(rev@.reverse() =~= seq![digit_char(d as nat)] + old_rev.reverse());
        if q < 10 {
            break;
        }
        q = q / 10;
    }
    let mut out = String::new();
    let mut k = rev.len();
    while k > 0
        invariant
            k <= rev.len(),
            out@ == rev@.reverse().subrange(0, rev.len() - k),
        decreases k,
    {
        k = k - 1;
        push_char(&mut out, rev[k]);
        assert(out@ =~= rev@.reverse().subrange(0, rev.len() - k));
    }
    assert(out@ =~= rev@.reverse());
    out
}

pub open spec fn is_digit(c: char) -> bool {
    '0' <= c && c <= '9'
}

pub open spec fn all_digits(s: Seq<char>) -> bool {
    forall|i: int| 0 <= i < s.len() ==> is_digit(s[i])
}

/// The number written by a sequence of decimal digits.
pub open spec fn digits_value(s: Seq<char>) -> nat
    decreases s.len(),
{
    if s.len() == 0 {
        0
    } else {
        digits_value(s.drop_last()) * 10 + ((s.last() as nat) - 48) as nat
    }
}

/// What `str::parse` gives for an unsigned integer type whose largest value
/// is `max`: an optional `+`, then one or more decimal digits, whose value
/// must not exceed `max`.
pub open spec fn parse_unsigned(s: Seq<char>, max: nat) -> Option<nat> {
    let d = if s.len() > 0 && s[0] == '+' {
        s.drop_first()
    } else {
        s
    };
    if d.len() > 0 && all_digits(d) && digits_value(d) <= max {
        Some(digits_value(d))
    } else {
        None
    }
}

proof fn lemma_digits_value_grows(s: Seq<char>, k: int)
    requires
        0 <= k <= s.len(),
        all_digits(s),
    ensures
        digits_value(s.subrange(0, k)) <= digits_value(s),
    decreases s.len() - k,
{
    if k < s.len() {
        assert(s.drop_last().subrange(0, k) =~= s.subrange(0, k));
        lemma_digits_value_grows(s.drop_last(), k);
        assert(is_digit(s.last()));
    } else {
        assert(s.subrange(0, k) =~= s);
    }
}

/// Parses an unsigned decimal number no larger than `max`.
pub fn parse_unsigned_str(s: &str, max: u64) -> (r: Option<u64>)
    ensures
        match parse_unsigned(s@, max as nat) {
            Some(v) => r == Some(v as u64),
            None => r is None,
        },
{
    let v = chars_of(s);
    let n = v.len();
    let start: usize = if n > 0 && v[0] == '+' {
        1
    } else {
        0
    };
    let ghost d = if s@.len() > 0 && s@[0] == '+' {
        s@.drop_first()
    } else {
        s@
    };
    assert(d =~= s@.subrange(start as int, n as int));
    if start == n {
        return None;
    }
    let mut acc: u64 = 0;
    let mut i = start;
    while i < n
        invariant
            v@ == s@,
            n == s@.len(),
            start <= i <= n,
            d == s@.subrange(start as int, n as int),
            d == (if s@.len() > 0 && s@[0] == '+' {
                s@.drop_first()
            } else {
                s@
            }),
            all_digits(d.subrange(0, i - start)),
            acc as nat == digits_value(d.subrange(0, i - start)),
            acc <= max,
        decreases n - i,
    {
        let c = v[i];
        let ghost pre = d.subrange(0, i - start);
        let ghost next = d.subrange(0, i + 1 - start);
        assert(next.drop_last() =~= pre);
        assert(next.last() == c);
        if !('0' <= c && c <= '9') {
            assert(!all_digits(d)) by {
                assert(d[i - start] == c);
                assert(!is_digit(d[i - start]));
            }
            assert(parse_unsigned(s@, max as nat) is None);
            return None;
        }
        let dv: u64 = (c as u32 - 48) as u64;
        if dv > max || acc > (max - dv) / 10 {
            proof {
                assert(acc * 10 + dv > max) by (nonlinear_arith)
                    requires
                        dv > max || acc > (max - dv) / 10,
                        acc >= 0,
                ;
                assert(digits_value(next) == acc * 10 + dv);
                if all_digits(d) {
                    lemma_digits_value_grows(d, i + 1 - start);
                }
            }
            assert(parse_unsigned(s@, max as nat) is None);
            return None;
        }
        acc = acc * 10 + dv;
        i = i + 1;
    }
    assert(d.subrange(0, n - start) =~= d);
    Some(acc)
}

/// `parts` joined with `sep` between consecutive parts.
pub open spec fn join(parts: Seq<Seq<char>>, sep: Seq<char>) -> Seq<char>
    decreases parts.len(),
{
    if parts.len() == 0 {
        seq![]
    } else if parts.len() == 1 {
        parts[0]
    } else {
        join(parts.drop_last(), sep) + sep + parts.last()
    }
}

pub open spec fn string_views(v: Seq<String>) -> Seq<Seq<char>> {
    v.map_values(|s: String| s@)
}

/// Joins strings with a separator, as `[String]::join` does.
pub fn join_strings(parts: &Vec<String>, sep: &str) -> (r: String)
    ensures
        r@ == join(string_views(parts@), sep@),
{
    let mut r = String::new();
    let mut i: usize = 0;
    while i < parts.len()
        invariant
            i <= parts.len(),
            r@ == join(string_views(parts@).subrange(0, i as int), sep@),
        decreases parts.len() - i,
    {
        let ghost pre = string_views(parts@).subrange(0, i as int);
        let ghost next = string_views(parts@).subrange(0, i + 1);
        assert(next.drop_last() =~= pre);
        if i > 0 {
            r.append(sep);
        }
        r.append(parts[i].as_str());
        i = i + 1;
        assert(r@ =~= join(next, sep@));
    }
    assert(string_views(parts@).subrange(0, parts.len() as int) =~= string_views(parts@));
    r
}


/// What the `Debug` formatting of a string slice produces: the characters in
/// double quotes, with quotes, backslashes and non-printable characters
/// escaped.
pub uninterp spec fn str_debug(s: Seq<char>) -> Seq<char>;

/// The `Debug` text of a string slice.
/// Calls `format!("{:?}", s)`; its result is named `str_debug` of the characters.
#[verifier::external_body]
pub fn debug_str(s: &str) -> (r: String)
    ensures
        r@ == str_debug(s@),
{
    format!("{:?}", s)
}

/// The `Debug` text of an optional string: `None`, or `Some(..)` around the
/// string's own `Debug` text.
pub open spec fn opt_str_debug(o: Option<Seq<char>>) -> Seq<char> {
    match o {
        None => "None"@,
        Some(s) => "Some("@ + str_debug(s) + ")"@,
    }
}

/// The `Debug` text of an optional unsigned number.
pub open spec fn opt_nat_debug(o: Option<nat>) -> Seq<char> {
    match o {
        None => "None"@,
        Some(n) => "Some("@ + decimal(n) + ")"@,
    }
}

pub open spec fn opt_view(o: Option<String>) -> Option<Seq<char>> {
    match o {
        None => None,
        Some(s) => Some(s@),
    }
}

pub open spec fn opt_u32_nat(o: Option<u32>) -> Option<nat> {
    match o {
        None => None,
        Some(n) => Some(n as nat),
    }
}

/// `format!("{:?}", o)` for an optional string.
pub fn debug_opt_string(o: &Option<String>) -> (r: String)
    ensures
        r@ == opt_str_debug(opt_view(*o)),
{
    match o {
        None => {
            let mut r = String::new();
            r.append("None");
            r
        },
        Some(s) => {
            let mut r = String::new();
            r.append("Some(");
            let d = debug_str(s.as_str());
            r.append(d.as_str());
            r.append(")");
            r
        },
    }
}

/// `format!("{:?}", o)` for an optional `u32`.
pub fn debug_opt_u32(o: Option<u32>) -> (r: String)
    ensures
        r@ == opt_nat_debug(opt_u32_nat(o)),
{
    match o {
        None => {
            let mut r = String::new();
            r.append("None");
            r
        },
        Some(n) => {
            let mut r = String::new();
            r.append("Some(");
            let d = decimal_string(n as u128);
            r.append(d.as_str());
            r.append(")");
            r
        },
    }
}

/// `a` comes before `b` in the order of `str`'s `Ord`: character by
/// character, a proper prefix first.
pub open spec fn lex_lt(a: Seq<char>, b: Seq<char>) -> bool
    decreases a.len(),
{
    if a.len() == 0 {
        b.len() > 0
    } else if b.len() == 0 {
        false
    } else if a[0] != b[0] {
        a[0] < b[0]
    } else {
        lex_lt(a.drop_first(), b.drop_first())
    }
}

/// Each element no later in the order than the next ones.
pub open spec fn sorted_lex(s: Seq<Seq<char>>) -> bool {
    forall|i: int, j: int| 0 <= i < j < s.len() ==> !lex_lt(#[trigger] s[j], #[trigger] s[i])
}

proof fn lemma_lex_asym(a: Seq<char>, b: Seq<char>)
    ensures
        !(lex_lt(a, b) && lex_lt(b, a)),
        a != b ==> lex_lt(a, b) || lex_lt(b, a),
    decreases a.len(),
{
    if a.len() == 0 && b.len() == 0 {
        assert(a =~= b);
    } else if a.len() == 0 || b.len() == 0 {
    } else if a[0] != b[0] {
    } else {
        lemma_lex_asym(a.drop_first(), b.drop_first());
        assert(a =~= seq![a[0]] + a.drop_first());
        assert(b =~= seq![b[0]] + b.drop_first());
    }
}

proof fn lemma_lex_trans(a: Seq<char>, b: Seq<char>, c: Seq<char>)
    requires
        lex_lt(a, b),
        lex_lt(b, c),
    ensures
        lex_lt(a, c),
    decreases a.len(),
{
    if a.len() > 0 && b.len() > 0 && c.len() > 0 && a[0] == b[0] && b[0] == c[0] {
        lemma_lex_trans(a.drop_first(), b.drop_first(), c.drop_first());
    }
}

/// Whether `a` comes before `b`.
pub fn lex_less(a: &Vec<char>, b: &Vec<char>) -> (r: bool)
    ensures
        r == lex_lt(a@, b@),
{
    let mut i: usize = 0;
    assert(a@.subrange(0, a.len() as int) =~= a@);
    assert(b@.subrange(0, b.len() as int) =~= b@);
    assert(a@.subrange(0, 0) =~= b@.subrange(0, 0));
    while i < a.len() && i < b.len() && a[i] == b[i]
        invariant
            i <= a.len(),
            i <= b.len(),
            a@.subrange(0, i as int) == b@.subrange(0, i as int),
            lex_lt(a@, b@) == lex_lt(a@.subrange(i as int, a.len() as int), b@.subrange(i as int, b.len() as int)),
        decreases a.len() - i,
    {
        let ghost sa = a@.subrange(i as int, a.len() as int);
        let ghost sb = b@.subrange(i as int, b.len() as int);
        assert(sa.drop_first() =~= a@.subrange(i + 1, a.len() as int));
        assert(sb.drop_first() =~= b@.subrange(i + 1, b.len() as int));
        assert(a@.subrange(0, i + 1) =~= a@.subrange(0, i as int).push(a@[i as int]));
        assert(b@.subrange(0, i + 1) =~= b@.subrange(0, i as int).push(b@[i as int]));
        i = i + 1;
    }
    let ghost sa = a@.subrange(i as int, a.len() as int);
    let ghost sb = b@.subrange(i as int, b.len() as int);
    if i == a.len() {
        i < b.len()
    } else if i == b.len() {
        false
    } else {
        assert(sa[0] == a@[i as int] && sb[0] == b@[i as int]);
        a[i] < b[i]
    }
}

/// The strings in the order of `str`'s `Ord`, as `sort_unstable` leaves
/// them, joined by newlines.
pub fn sorted_lines(names: &Vec<String>) -> (r: String)
    ensures
        exists|s: Seq<Seq<char>>|
            sorted_lex(s) && s.to_multiset() == string_views(names@).to_multiset() && r@ == join(
                s,
                "\n"@,
            ),
{
    broadcast use vstd::seq_lib::to_multiset_insert;

    let mut out: Vec<Vec<char>> = Vec::new();
    let mut i: usize = 0;
    assert(views(out@) =~= string_views(names@).subrange(0, 0));
    while i < names.len()
        invariant
            i <= names.len(),
            sorted_lex(views(out@)),
            views(out@).to_multiset() == string_views(names@).subrange(0, i as int).to_multiset(),
        decreases names.len() - i,
    {
        let x = chars_of(names[i].as_str());
        let mut p: usize = 0;
        while p < out.len() && !lex_less(&x, &out[p])
            invariant
                p <= out.len(),
                forall|j: int| 0 <= j < p ==> !lex_lt(x@, #[trigger] views(out@)[j]),
            decreases out.len() - p,
        {
            p = p + 1;
        }
        let ghost before = views(out@);
        proof {
            assert forall|j: int| p <= j < before.len() implies !lex_lt(#[trigger] before[j], x@) by {
                if lex_lt(before[j], x@) {
                    assert(lex_lt(x@, before[p as int]));
                    lemma_lex_trans(before[j], x@, before[p as int]);
                    if j > p {
                        assert(!lex_lt(before[j], before[p as int]));
                    } else {
                        lemma_lex_asym(before[j], before[j]);
                    }
                }
            }
        }
        out.insert(p, x);
        let ghost after = views(out@);
        assert(after =~= before.insert(p as int, x@));
        proof {
            assert forall|a: int, b: int| 0 <= a < b < after.len() implies !lex_lt(
                #[trigger] after[b],
                #[trigger] after[a],
            ) by {
                if a < p && b < p {
                } else if a < p && b == p {
                    lemma_lex_asym(x@, before[a]);
                } else if a < p && b > p {
                    let bb = b - 1;
                    if lex_lt(before[bb], before[a]) {
                        if lex_lt(x@, before[a]) {
                        } else {
                            lemma_lex_asym(x@, before[a]);
                            if x@ == before[a] {
                            } else {
                                lemma_lex_trans(before[bb], before[a], x@);
                            }
                        }
                    }
                } else if a == p {
                } else {
                }
            }
            let pre = string_views(names@).subrange(0, i as int);
            let post = string_views(names@).subrange(0, i + 1);
            assert(post =~= pre.push(x@));
            vstd::seq_lib::to_multiset_build(pre, x@);
            vstd::seq_lib::to_multiset_insert(before, p as int, x@);
        }
        i = i + 1;
    }
    assert(string_views(names@).subrange(0, names.len() as int) =~= string_views(names@));
    let mut lines: Vec<String> = Vec::new();
    let mut k: usize = 0;
    while k < out.len()
        invariant
            k <= out.len(),
            string_views(lines@) == views(out@).subrange(0, k as int),
        decreases out.len() - k,
    {
        let l = string_from(&out[k]);
        let ghost old_l = string_views(lines@);
        lines.push(l);
        assert(string_views(lines@) =~= old_l.push(views(out@)[k as int]));
        k = k + 1;
    }
    assert(views(out@).subrange(0, out.len() as int) =~= views(out@));
    join_strings(&lines, "\n")
}

} // verus!
