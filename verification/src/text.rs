//! Character-level string operations with specifications over `Seq<char>`.

use vstd::prelude::*;

verus! {

/// `p` occurs in `s` starting at position `i`.
pub open spec fn occurs_at(s: Seq<char>, p: Seq<char>, i: int) -> bool {
    0 <= i && i + p.len() <= s.len() && s.subrange(i, i + p.len()) == p
}

/// `p` occurs somewhere in `s` (the empty pattern occurs in every string).
pub open spec fn seq_contains(s: Seq<char>, p: Seq<char>) -> bool {
    exists|i: int| #[trigger] occurs_at(s, p, i)
}

/// `r` inserted before every character of `s` and once more at its end: what replacing the
/// empty pattern gives, as it matches at every character boundary.
pub open spec fn insert_everywhere(s: Seq<char>, r: Seq<char>) -> Seq<char>
    decreases s.len(),
{
    if s.len() == 0 {
        r
    } else {
        r + seq![s[0]] + insert_everywhere(s.skip(1), r)
    }
}

/// Every non-overlapping occurrence of the pattern `p` in `s`, found from left to right,
/// replaced by `r`. The empty pattern matches at every character boundary.
pub open spec fn replace_all(s: Seq<char>, p: Seq<char>, r: Seq<char>) -> Seq<char>
    decreases s.len(),
{
    if p.len() == 0 {
        insert_everywhere(s, r)
    } else if s.len() < p.len() {
        s
    } else if s.take(p.len() as int) == p {
        r + replace_all(s.skip(p.len() as int), p, r)
    } else {
        seq![s[0]] + replace_all(s.skip(1), p, r)
    }
}

/// The characters of `s`, one element each.
pub fn chars_of(s: &str) -> (v: Vec<char>)
    ensures
        v@ == s@,
{
    let mut v: Vec<char> = Vec::new();
    for c in it: s.chars()
        invariant
            v@ == it.seq().take(it.index() as int),
    {
        v.push(c);
    }
    v
}


/// Whether `p` occurs in `s` at position `i` (compares character by character).
fn matches_at(s: &Vec<char>, p: &Vec<char>, i: usize) -> (b: bool)
    requires
        i + p@.len() <= s@.len(),
    ensures
        b == occurs_at(s@, p@, i as int),
{
    let m = p.len();
    let n = s.len();
    let mut j: usize = 0;
    while j < m
        invariant
            m == p@.len(),
            n == s@.len(),
            i + m <= s@.len(),
            j <= m,
            forall|k: int| 0 <= k < j ==> s@[i + k] == p@[k],
        decreases m - j,
    {
        if s[i + j] != p[j] {
            assert(s@.subrange(i as int, i + m)[j as int] != p@[j as int]);
            return false;
        }
        j = j + 1;
    }
    assert(s@.subrange(i as int, i + m) =~= p@);
    true
}

/// Whether `needle` occurs in `hay`, as `str::contains` with a string pattern.
pub fn str_contains(hay: &str, needle: &str) -> (b: bool)
    ensures
        b == seq_contains(hay@, needle@),
{
    let s = chars_of(hay);
    let p = chars_of(needle);
    let n = s.len();
    let m = p.len();
    if m > n {
        assert forall|i: int| !occurs_at(hay@, needle@, i) by {}
        return false;
    }
    if m == 0 {
        assert(hay@.subrange(0, 0) =~= needle@);
        assert(occurs_at(hay@, needle@, 0));
        return true;
    }
    let mut i: usize = 0;
    while i <= n - m
        invariant
            s@ == hay@,
            p@ == needle@,
            n == s@.len(),
            m == p@.len(),
            1 <= m <= n,
            i <= n - m + 1,
            i <= n,
            forall|k: int| 0 <= k < i ==> !occurs_at(hay@, needle@, k),
        decreases n - i,
    {
        if matches_at(&s, &p, i) {
            return true;
        }
        i = i + 1;
    }
    assert forall|k: int| !occurs_at(hay@, needle@, k) by {
        if 0 <= k < i {
        }
    }
    false
}


/// One unfolding step of `replace_all` at position `i` of `s`.
proof fn lemma_replace_step(s: Seq<char>, p: Seq<char>, r: Seq<char>, i: int)
    requires
        p.len() > 0,
        0 <= i,
        i + p.len() <= s.len(),
    ensures
        occurs_at(s, p, i) ==> replace_all(s.skip(i), p, r) == r + replace_all(
            s.skip(i + p.len()),
            p,
            r,
        ),
        !occurs_at(s, p, i) ==> replace_all(s.skip(i), p, r) == seq![s[i]] + replace_all(
            s.skip(i + 1),
            p,
            r,
        ),
{
    let t = s.skip(i);
    assert(t.take(p.len() as int) =~= s.subrange(i, i + p.len()));
    assert(t.skip(p.len() as int) =~= s.skip(i + p.len()));
    assert(t.skip(1) =~= s.skip(i + 1));
    assert(t[0] == s[i]);
}

/// Every occurrence of `from` in `s` replaced by `to`, as `str::replace` with a string
/// pattern.
pub fn str_replace(s: &str, from: &str, to: &str) -> (res: String)
    ensures
        res@ == replace_all(s@, from@, to@),
{
    let cs = chars_of(s);
    let ps = chars_of(from);
    let n = cs.len();
    let m = ps.len();
    if m == 0 {
        return insert_at_boundaries(s, n, to);
    }
    let ghost target = replace_all(s@, from@, to@);
    let mut res = String::new();
    let mut last: usize = 0;
    let mut i: usize = 0;
    assert(s@.skip(0) =~= s@);
    assert(s@.subrange(0, 0) =~= Seq::<char>::empty());
    while m <= n && i <= n - m
        invariant
            cs@ == s@,
            ps@ == from@,
            n == s@.len(),
            m == from@.len(),
            m >= 1,
            last <= i <= n,
            res@ + s@.subrange(last as int, i as int) + replace_all(s@.skip(i as int), from@, to@)
                == target,
        decreases n - i,
    {
        proof {
            lemma_replace_step(s@, from@, to@, i as int);
        }
        if matches_at(&cs, &ps, i) {
            let ghost before = res@;
            let chunk = s.substring_char(last, i);
            res.append(chunk);
            res.append(to);
            i = i + m;
            last = i;
            assert(s@.subrange(last as int, i as int) =~= Seq::<char>::empty());
            assert(res@ + s@.subrange(last as int, i as int) =~= before + chunk@ + to@);
        } else {
            let ghost before = res@;
            assert(s@.subrange(last as int, i + 1) =~= s@.subrange(last as int, i as int).push(
                s@[i as int],
            ));
            i = i + 1;
            assert(before + s@.subrange(last as int, i as int) =~= before + s@.subrange(
                last as int,
                i - 1,
            ) + seq![s@[i - 1]]);
        }
    }
    proof {
        let t = s@.skip(i as int);
        assert(t.len() < m);
        assert(replace_all(t, from@, to@) == t);
        assert(s@.subrange(last as int, i as int) + t =~= s@.subrange(last as int, n as int));
    }
    let tail = s.substring_char(last, n);
    res.append(tail);
    res
}


/// `to` inserted before every character of `s` (of `n` characters) and at its end.
fn insert_at_boundaries(s: &str, n: usize, to: &str) -> (res: String)
    requires
        n == s@.len(),
    ensures
        res@ == insert_everywhere(s@, to@),
{
    let mut res = String::new();
    let mut i: usize = 0;
    assert(s@.skip(0) =~= s@);
    assert(res@ + insert_everywhere(s@, to@) =~= insert_everywhere(s@, to@));
    while i < n
        invariant
            n == s@.len(),
            i <= n,
            res@ + insert_everywhere(s@.skip(i as int), to@) == insert_everywhere(s@, to@),
        decreases n - i,
    {
        let ghost before = res@;
        let ghost t = s@.skip(i as int);
        assert(t[0] == s@[i as int]);
        assert(t.skip(1) =~= s@.skip(i + 1));
        let c = s.substring_char(i, i + 1);
        assert(c@ =~= seq![s@[i as int]]);
        res.append(to);
        res.append(c);
        i = i + 1;
        assert(before + insert_everywhere(t, to@) =~= res@ + insert_everywhere(
            s@.skip(i as int),
            to@,
        ));
    }
    assert(s@.skip(n as int).len() == 0);
    res.append(to);
    res
}

/// No character of `p` occurs in `r`.
pub open spec fn shares_no_char(p: Seq<char>, r: Seq<char>) -> bool {
    forall|i: int, j: int| 0 <= i < p.len() && 0 <= j < r.len() ==> p[i] != r[j]
}

/// Up to the first character of a (non-empty) replacement, the result of `replace_all`
/// is the input itself.
proof fn lemma_replace_prefix(t: Seq<char>, p: Seq<char>, r: Seq<char>, k: int)
    requires
        p.len() > 0,
        r.len() > 0,
        0 <= k <= replace_all(t, p, r).len(),
        forall|j: int| 0 <= j < k ==> !r.contains(#[trigger] replace_all(t, p, r)[j]),
    ensures
        k <= t.len(),
        replace_all(t, p, r).take(k) == t.take(k),
    decreases t.len(),
{
    if t.len() < p.len() {
    } else if t.take(p.len() as int) == p {
        if k > 0 {
            assert(replace_all(t, p, r)[0] == r[0]);
            assert(r.contains(r[0]));
        }
    } else {
        let u = replace_all(t.skip(1), p, r);
        assert(replace_all(t, p, r) == seq![t[0]] + u);
        if k > 0 {
            assert forall|j: int| 0 <= j < k - 1 implies !r.contains(#[trigger] u[j]) by {
                assert(replace_all(t, p, r)[j + 1] == u[j]);
            }
            lemma_replace_prefix(t.skip(1), p, r, k - 1);
            assert(replace_all(t, p, r).take(k) =~= seq![t[0]] + u.take(k - 1));
            assert(t.take(k) =~= seq![t[0]] + t.skip(1).take(k - 1));
        }
    }
}

/// Replacing a non-empty pattern by a non-empty text that has none of its characters
/// leaves no occurrence of the pattern: every occurrence is replaced, and the replacement
/// cannot form a new one.
pub proof fn lemma_replace_leaves_no_pattern(s: Seq<char>, p: Seq<char>, r: Seq<char>)
    requires
        p.len() > 0,
        r.len() > 0,
        shares_no_char(p, r),
    ensures
        !seq_contains(replace_all(s, p, r), p),
    decreases s.len(),
{
    let m = p.len() as int;
    let res = replace_all(s, p, r);
    if s.len() < p.len() {
        assert forall|i: int| !occurs_at(res, p, i) by {}
    } else if s.take(m) == p {
        let t = replace_all(s.skip(m), p, r);
        lemma_replace_leaves_no_pattern(s.skip(m), p, r);
        assert(res == r + t);
        assert forall|i: int| !occurs_at(res, p, i) by {
            if occurs_at(res, p, i) {
                if i >= r.len() {
                    assert(t.subrange(i - r.len(), i - r.len() + m) =~= res.subrange(i, i + m));
                    assert(occurs_at(t, p, i - r.len()));
                } else {
                    assert(res.subrange(i, i + m)[0] == res[i]);
                    assert(p[0] == r[i]);
                }
            }
        }
    } else {
        let t = replace_all(s.skip(1), p, r);
        lemma_replace_leaves_no_pattern(s.skip(1), p, r);
        assert(res == seq![s[0]] + t);
        assert forall|i: int| !occurs_at(res, p, i) by {
            if occurs_at(res, p, i) {
                if i >= 1 {
                    assert(t.subrange(i - 1, i - 1 + m) =~= res.subrange(i, i + m));
                    assert(occurs_at(t, p, i - 1));
                } else {
                    assert forall|j: int| 0 <= j < m implies !r.contains(#[trigger] res[j]) by {
                        assert(res[j] == res.subrange(0, m)[j]);
                        if r.contains(res[j]) {
                            let jj = choose|jj: int| 0 <= jj < r.len() && r[jj] == res[j];
                            assert(p[j] == r[jj]);
                        }
                    }
                    lemma_replace_prefix(s, p, r, m);
                    assert(res.take(m) =~= res.subrange(0, m));
                }
            }
        }
    }
}

/// Replacing a pattern that does not occur leaves the string unchanged.
pub proof fn lemma_replace_absent(s: Seq<char>, p: Seq<char>, r: Seq<char>)
    requires
        p.len() > 0,
        !seq_contains(s, p),
    ensures
        replace_all(s, p, r) == s,
    decreases s.len(),
{
    if s.len() >= p.len() {
        assert(s.take(p.len() as int) =~= s.subrange(0, p.len() as int));
        assert(!occurs_at(s, p, 0));
        let t = s.skip(1);
        assert forall|i: int| !occurs_at(t, p, i) by {
            if occurs_at(t, p, i) {
                assert(t.subrange(i, i + p.len()) =~= s.subrange(i + 1, i + 1 + p.len()));
                assert(occurs_at(s, p, i + 1));
            }
        }
        lemma_replace_absent(t, p, r);
        assert(seq![s[0]] + t =~= s);
    }
}


/// Whether two strings hold the same characters.
pub fn str_eq(a: &str, b: &str) -> (r: bool)
    ensures
        r == (a@ == b@),
{
    let x = chars_of(a);
    let y = chars_of(b);
    if x.len() != y.len() {
        return false;
    }
    let n = x.len();
    let mut i: usize = 0;
    while i < n
        invariant
            x@ == a@,
            y@ == b@,
            n == x@.len(),
            n == y@.len(),
            i <= n,
            forall|k: int| 0 <= k < i ==> x@[k] == y@[k],
        decreases n - i,
    {
        if x[i] != y[i] {
            return false;
        }
        i = i + 1;
    }
    assert(a@ =~= b@);
    true
}

} // verus!
