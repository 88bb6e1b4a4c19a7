//! Paths compared by their components, as `std::path::Path` does on Unix:
//! a leading `/` is the root, a leading `.` (alone or before a `/`) the
//! current directory, and in the rest empty pieces and `.` pieces between
//! separators are no components at all.

use vstd::prelude::*;
use crate::text::{chars_of, string_from};

verus! {

/// The end of the piece of `p` that starts at `i`: the first `/` at or after
/// `i`, or the end of `p`.
pub open spec fn piece_end(p: Seq<char>, i: int) -> int
    decreases p.len() - i,
{
    if i >= p.len() {
        p.len() as int
    } else if p[i] == '/' {
        i
    } else {
        piece_end(p, i + 1)
    }
}

/// A piece ends at or after its start, and within the text.
pub proof fn lemma_piece_end(p: Seq<char>, i: int)
    requires
        0 <= i <= p.len(),
    ensures
        i <= piece_end(p, i) <= p.len(),
    decreases p.len() - i,
{
    if i < p.len() && p[i] != '/' {
        lemma_piece_end(p, i + 1);
    }
}

/// Where the piece after the one at `i` starts.
pub open spec fn next_piece(p: Seq<char>, i: int) -> int {
    let e = piece_end(p, i);
    if e < p.len() {
        e + 1
    } else {
        p.len() as int
    }
}

/// The piece at `i` is no component: it is empty or `.`.
pub open spec fn skipped(p: Seq<char>, i: int) -> bool {
    let e = piece_end(p, i);
    e == i || (e == i + 1 && p[i] == '.')
}

/// The pieces at `i` in `p` and at `j` in `b` are the same text.
pub open spec fn same_piece(p: Seq<char>, i: int, b: Seq<char>, j: int) -> bool {
    p.subrange(i, piece_end(p, i)) == b.subrange(j, piece_end(b, j))
}

/// How a path starts: 0 with a component of its body, 1 with the root, 2 with
/// the current directory.
pub open spec fn start_kind(p: Seq<char>) -> int {
    if p.len() > 0 && p[0] == '/' {
        1
    } else if p.len() > 0 && p[0] == '.' && (p.len() == 1 || p[1] == '/') {
        2
    } else {
        0
    }
}

/// Where the body of a path starts.
pub open spec fn body_start(p: Seq<char>) -> int {
    if start_kind(p) == 0 {
        0
    } else {
        1
    }
}

/// The first place at or after `i` where a component starts, or the end.
pub open spec fn skip_empty(p: Seq<char>, i: int) -> int
    decreases p.len() - i,
{
    if 0 <= i < p.len() && skipped(p, i) {
        skip_empty(p, next_piece(p, i))
    } else {
        i
    }
}

/// The last `/` in `p[lo..e]`, or `lo - 1` when there is none.
pub open spec fn last_sep(p: Seq<char>, lo: int, e: int) -> int
    decreases e - lo,
{
    if e <= lo {
        lo - 1
    } else if p[e - 1] == '/' {
        e - 1
    } else {
        last_sep(p, lo, e - 1)
    }
}

/// The end of `p[lo..e]` once trailing empty and `.` pieces are dropped.
pub open spec fn trim_end(p: Seq<char>, lo: int, e: int) -> int
    decreases e - lo,
{
    if e > lo {
        let s = last_sep(p, lo, e);
        let cs = s + 1;
        if cs == e || (cs + 1 == e && p[cs] == '.') {
            trim_end(p, lo, if s >= lo { s } else { lo })
        } else {
            e
        }
    } else {
        e
    }
}

/// What is left of `p` from `i` once the components of `b` from `j` are
/// matched, with leading and trailing empty and `.` pieces dropped; nothing
/// when a component differs or `p` runs out first.
pub open spec fn strip_body(p: Seq<char>, i: int, b: Seq<char>, j: int) -> Option<Seq<char>>
    decreases p.len() - i + b.len() - j,
{
    if i < 0 || j < 0 || i > p.len() || j > b.len() {
        None
    } else if j < b.len() && skipped(b, j) {
        strip_body(p, i, b, next_piece(b, j))
    } else if j == b.len() {
        let l = skip_empty(p, i);
        Some(p.subrange(l, trim_end(p, l, p.len() as int)))
    } else if i < p.len() && skipped(p, i) {
        strip_body(p, next_piece(p, i), b, j)
    } else if i == p.len() {
        None
    } else if same_piece(p, i, b, j) {
        proof {
            lemma_piece_end(p, i);
            lemma_piece_end(b, j);
        }
        strip_body(p, next_piece(p, i), b, next_piece(b, j))
    } else {
        None
    }
}

/// `path` relative to `base`, as `Path::strip_prefix` gives it: the text of
/// `path` after the components of `base`, when those begin `path`.
pub open spec fn strip_components(path: Seq<char>, base: Seq<char>) -> Option<Seq<char>> {
    if start_kind(base) != 0 {
        if start_kind(path) == start_kind(base) {
            strip_body(path, 1, base, 1)
        } else {
            None
        }
    } else if skip_empty(base, 0) >= base.len() {
        Some(path.subrange(0, trim_end(path, body_start(path), path.len() as int)))
    } else if start_kind(path) != 0 {
        None
    } else {
        strip_body(path, 0, base, 0)
    }
}

fn piece_end_at(p: &Vec<char>, i: usize) -> (e: usize)
    requires
        i <= p.len(),
    ensures
        e == piece_end(p@, i as int),
        i <= e <= p.len(),
        forall|k: int| i <= k < e ==> p@[k] != '/',
{
    let mut e = i;
    while e < p.len() && p[e] != '/'
        invariant
            i <= e <= p.len(),
            piece_end(p@, i as int) == piece_end(p@, e as int),
            forall|k: int| i <= k < e ==> p@[k] != '/',
        decreases p.len() - e,
    {
        e = e + 1;
    }
    e
}

fn next_piece_at(p: &Vec<char>, i: usize) -> (n: usize)
    requires
        i < p.len(),
    ensures
        n == next_piece(p@, i as int),
        i < n <= p.len(),
{
    let e = piece_end_at(p, i);
    if e < p.len() {
        e + 1
    } else {
        p.len()
    }
}

fn skipped_at(p: &Vec<char>, i: usize) -> (r: bool)
    requires
        i < p.len(),
    ensures
        r == skipped(p@, i as int),
{
    let e = piece_end_at(p, i);
    e == i || (e == i + 1 && p[i] == '.')
}

fn same_piece_at(p: &Vec<char>, i: usize, b: &Vec<char>, j: usize) -> (r: bool)
    requires
        i <= p.len(),
        j <= b.len(),
    ensures
        r == same_piece(p@, i as int, b@, j as int),
{
    let ep = piece_end_at(p, i);
    let eb = piece_end_at(b, j);
    if ep - i != eb - j {
        assert(p@.subrange(i as int, ep as int).len() != b@.subrange(j as int, eb as int).len());
        return false;
    }
    let mut k: usize = 0;
    while k < ep - i
        invariant
            ep == piece_end(p@, i as int),
            eb == piece_end(b@, j as int),
            ep - i == eb - j,
            i <= ep <= p.len(),
            j <= eb <= b.len(),
            k <= ep - i,
            p@.subrange(i as int, i + k) == b@.subrange(j as int, j + k),
        decreases ep - i - k,
    {
        if p[i + k] != b[j + k] {
            assert(p@.subrange(i as int, ep as int)[k as int] == p@[i + k]);
            assert(b@.subrange(j as int, eb as int)[k as int] == b@[j + k]);
            assert(p@.subrange(i as int, ep as int) != b@.subrange(j as int, eb as int));
            return false;
        }
        assert(p@.subrange(i as int, i + k + 1) =~= p@.subrange(i as int, i + k).push(p@[i + k]));
        assert(b@.subrange(j as int, j + k + 1) =~= b@.subrange(j as int, j + k).push(b@[j + k]));
        k = k + 1;
    }
    assert(p@.subrange(i as int, ep as int) =~= b@.subrange(j as int, eb as int));
    true
}

fn start_kind_of(p: &Vec<char>) -> (k: usize)
    ensures
        k == start_kind(p@),
{
    if p.len() > 0 && p[0] == '/' {
        1
    } else if p.len() > 0 && p[0] == '.' && (p.len() == 1 || p[1] == '/') {
        2
    } else {
        0
    }
}

fn skip_empty_at(p: &Vec<char>, i: usize) -> (r: usize)
    requires
        i <= p.len(),
    ensures
        r == skip_empty(p@, i as int),
        i <= r <= p.len(),
{
    let mut k = i;
    while k < p.len() && skipped_at(p, k)
        invariant
            i <= k <= p.len(),
            skip_empty(p@, k as int) == skip_empty(p@, i as int),
        decreases p.len() - k,
    {
        k = next_piece_at(p, k);
    }
    k
}

fn last_sep_at(p: &Vec<char>, lo: usize, e: usize) -> (r: Option<usize>)
    requires
        lo <= e <= p.len(),
    ensures
        match r {
            Some(s) => s == last_sep(p@, lo as int, e as int) && lo <= s < e,
            None => last_sep(p@, lo as int, e as int) == lo - 1,
        },
{
    let mut k = e;
    while k > lo
        invariant
            lo <= k <= e <= p.len(),
            last_sep(p@, lo as int, k as int) == last_sep(p@, lo as int, e as int),
        decreases k - lo,
    {
        if p[k - 1] == '/' {
            return Some(k - 1);
        }
        k = k - 1;
    }
    None
}

fn trim_end_at(p: &Vec<char>, lo: usize, e: usize) -> (r: usize)
    requires
        lo <= e <= p.len(),
    ensures
        r == trim_end(p@, lo as int, e as int),
        lo <= r <= e,
{
    let mut k = e;
    while k > lo
        invariant
            lo <= k <= e <= p.len(),
            trim_end(p@, lo as int, k as int) == trim_end(p@, lo as int, e as int),
        decreases k - lo,
    {
        let (cs, next) = match last_sep_at(p, lo, k) {
            Some(s) => (s + 1, s),
            None => (lo, lo),
        };
        if cs == k || (cs + 1 == k && p[cs] == '.') {
            k = next;
        } else {
            return k;
        }
    }
    k
}

fn sub_string(p: &Vec<char>, lo: usize, hi: usize) -> (r: String)
    requires
        lo <= hi <= p.len(),
    ensures
        r@ == p@.subrange(lo as int, hi as int),
{
    let mut v: Vec<char> = Vec::new();
    let mut k = lo;
    while k < hi
        invariant
            lo <= k <= hi <= p.len(),
            v@ == p@.subrange(lo as int, k as int),
        decreases hi - k,
    {
        v.push(p[k]);
        k = k + 1;
        assert(v@ =~= p@.subrange(lo as int, k as int));
    }
    string_from(&v)
}

fn strip_body_at(p: &Vec<char>, i: usize, b: &Vec<char>, j: usize) -> (r: Option<String>)
    requires
        i <= p.len(),
        j <= b.len(),
    ensures
        match strip_body(p@, i as int, b@, j as int) {
            Some(s) => r matches Some(x) && x@ == s,
            None => r is None,
        },
{
    let mut pi = i;
    let mut bj = j;
    loop
        invariant
            pi <= p.len(),
            bj <= b.len(),
            strip_body(p@, pi as int, b@, bj as int) == strip_body(p@, i as int, b@, j as int),
        decreases p.len() - pi + b.len() - bj,
    {
        if bj < b.len() && skipped_at(b, bj) {
            bj = next_piece_at(b, bj);
        } else if bj == b.len() {
            let l = skip_empty_at(p, pi);
            let e = trim_end_at(p, l, p.len());
            return Some(sub_string(p, l, e));
        } else if pi < p.len() && skipped_at(p, pi) {
            pi = next_piece_at(p, pi);
        } else if pi == p.len() {
            return None;
        } else if same_piece_at(p, pi, b, bj) {
            pi = next_piece_at(p, pi);
            bj = next_piece_at(b, bj);
        } else {
            return None;
        }
    }
}

/// `path` relative to `base`, compared component by component.
pub fn strip_by_components(path: &str, base: &str) -> (r: Option<String>)
    ensures
        match strip_components(path@, base@) {
            Some(s) => r matches Some(x) && x@ == s,
            None => r is None,
        },
{
    let p = chars_of(path);
    let b = chars_of(base);
    let kb = start_kind_of(&b);
    let kp = start_kind_of(&p);
    if kb != 0 {
        if kp == kb {
            strip_body_at(&p, 1, &b, 1)
        } else {
            None
        }
    } else if skip_empty_at(&b, 0) >= b.len() {
        let lo: usize = if kp == 0 { 0 } else { 1 };
        let e = trim_end_at(&p, lo, p.len());
        Some(sub_string(&p, 0, e))
    } else if kp != 0 {
        None
    } else {
        strip_body_at(&p, 0, &b, 0)
    }
}

} // verus!
