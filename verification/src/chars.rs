//! Character-sequence helpers shared by the path, protocol and tool logic.
//!
//! Executable string logic in this crate works on `Vec<char>`, whose view is
//! the same `Seq<char>` that `&str` and `String` views use, so every contract
//! can be stated over one model.

use vstd::prelude::*;

verus! {

/// The Unicode lowercase of a character sequence: what the deny list, the
/// type filter and every case-insensitive match compare by.
pub uninterp spec fn lower_of(s: Seq<char>) -> Seq<char>;

/// The characters of a string slice, as a vector with the same view.
pub fn str_to_chars(s: &str) -> (r: Vec<char>)
    ensures
        r@ == s@,
{
    let n = s.unicode_len();
    let mut r: Vec<char> = Vec::new();
    let mut i: usize = 0;
    while i < n
        invariant
            n == s@.len(),
            i <= n,
            r@ == s@.subrange(0, i as int),
        decreases n - i,
    {
        r.push(s.get_char(i));
        i = i + 1;
        proof {
            assert(r@ =~= s@.subrange(0, i as int));
        }
    }
    proof {
        assert(r@ =~= s@);
    }
    r
}

/// Builds a `String` from a character vector.
/// Relies on `core::iter::Iterator::collect` through `String`'s
/// `FromIterator<char>`: the collected string holds exactly the characters
/// of the iterator, in order.
#[verifier::external_body]
pub(crate) fn chars_to_string(v: &Vec<char>) -> (s: String)
    ensures
        s@ == v@,
{
    v.iter().collect()
}

/// Relies on str::to_lowercase: the result depends on the characters alone
/// (Rust's case mapping takes no locale), and an empty text stays empty.
#[verifier::external_body]
pub(crate) fn lowercase(s: &str) -> (r: String)
    ensures
        r@ == lower_of(s@),
        s@.len() == 0 ==> r@.len() == 0,
{
    s.to_lowercase()
}

/// The Unicode lowercase of a character vector, as characters.
pub fn lower_vec(v: &Vec<char>) -> (r: Vec<char>)
    ensures
        r@ == lower_of(v@),
{
    let s = chars_to_string(v);
    let l = lowercase(s.as_str());
    str_to_chars(l.as_str())
}

/// True when the two slices hold the same characters.
pub fn str_eq(a: &str, b: &str) -> (r: bool)
    ensures
        r == (a@ == b@),
{
    let n = a.unicode_len();
    if b.unicode_len() != n {
        proof {
            assert(a@.len() != b@.len());
        }
        return false;
    }
    let mut i: usize = 0;
    while i < n
        invariant
            n == a@.len(),
            b@.len() == n,
            i <= n,
            forall|j: int| 0 <= j < i ==> a@[j] == b@[j],
        decreases n - i,
    {
        if a.get_char(i) != b.get_char(i) {
            return false;
        }
        i = i + 1;
    }
    proof {
        assert(a@ =~= b@);
    }
    true
}

/// True when `s` begins with the sequence `p`.
pub open spec fn starts_with(s: Seq<char>, p: Seq<char>) -> bool {
    s.len() >= p.len() && s.subrange(0, p.len() as int) == p
}

/// True when `s` ends with the sequence `x`.
pub open spec fn ends_with(s: Seq<char>, x: Seq<char>) -> bool {
    s.len() >= x.len() && s.subrange(s.len() - x.len(), s.len() as int) == x
}

/// True when `v` begins with the characters of `p`.
pub fn starts_with_str(v: &Vec<char>, p: &str) -> (r: bool)
    ensures
        r == starts_with(v@, p@),
{
    let n = p.unicode_len();
    if v.len() < n {
        return false;
    }
    let mut i: usize = 0;
    while i < n
        invariant
            n == p@.len(),
            v@.len() >= n,
            i <= n,
            forall|j: int| 0 <= j < i ==> v@[j] == p@[j],
        decreases n - i,
    {
        if v[i] != p.get_char(i) {
            return false;
        }
        i = i + 1;
    }
    proof {
        assert(v@.subrange(0, n as int) =~= p@);
    }
    true
}

/// True when `v` ends with the characters of `x`.
pub fn ends_with_str(v: &Vec<char>, x: &str) -> (r: bool)
    ensures
        r == ends_with(v@, x@),
{
    let n = x.unicode_len();
    if v.len() < n {
        return false;
    }
    let vlen: usize = v.len();
    let off: usize = vlen - n;
    let mut i: usize = 0;
    while i < n
        invariant
            n == x@.len(),
            vlen == v@.len(),
            vlen >= n,
            off == vlen - n,
            i <= n,
            forall|j: int| 0 <= j < i ==> v@[off + j] == x@[j],
        decreases n - i,
    {
        if v[off + i] != x.get_char(i) {
            return false;
        }
        i = i + 1;
    }
    proof {
        assert(v@.subrange(v@.len() - n, v@.len() as int) =~= x@);
    }
    true
}

/// True when `q` occurs in `s` as a contiguous subsequence.
pub open spec fn contains_seq(s: Seq<char>, q: Seq<char>) -> bool {
    exists|i: int| 0 <= i <= s.len() - q.len() && #[trigger] s.subrange(i, i + q.len()) == q
}

/// True when the characters of `q` occur contiguously in `v`.
pub fn contains_chars(v: &Vec<char>, q: &Vec<char>) -> (r: bool)
    ensures
        r == contains_seq(v@, q@),
{
    let n = q.len();
    if n == 0 {
        proof {
            assert(v@.subrange(0, 0 + q@.len() as int) =~= q@);
            assert(contains_seq(v@, q@));
        }
        return true;
    }
    if v.len() < n {
        return false;
    }
    let vlen: usize = v.len();
    let last: usize = vlen - n;
    let mut i: usize = 0;
    while i <= last
        invariant
            n == q@.len(),
            n >= 1,
            vlen == v@.len(),
            vlen >= n,
            last == vlen - n,
            i <= last + 1,
            forall|k: int| 0 <= k < i ==> #[trigger] v@.subrange(k, k + q@.len()) != q@,
        decreases last + 1 - i,
    {
        if matches_at(v, q, i) {
            return true;
        }
        i = i + 1;
    }
    proof {
        assert(forall|k: int| 0 <= k <= v@.len() - q@.len() ==> #[trigger] v@.subrange(k, k + q@.len()) != q@);
    }
    false
}

/// True when `q` occurs in `v` starting at index `i`.
fn matches_at(v: &Vec<char>, q: &Vec<char>, i: usize) -> (r: bool)
    requires
        i + q@.len() <= v@.len(),
    ensures
        r == (v@.subrange(i as int, i + q@.len()) == q@),
{
    let n = q.len();
    let vlen: usize = v.len();
    let mut j: usize = 0;
    while j < n
        invariant
            n == q@.len(),
            vlen == v@.len(),
            i + n <= vlen,
            j <= n,
            forall|t: int| 0 <= t < j ==> v@[i + t] == q@[t],
        decreases n - j,
    {
        if v[i + j] != q[j] {
            proof {
                assert(v@.subrange(i as int, i + q@.len())[j as int] != q@[j as int]);
            }
            return false;
        }
        j = j + 1;
    }
    proof {
        assert(v@.subrange(i as int, i + q@.len()) =~= q@);
    }
    true
}

/// True when the two vectors hold the same characters.
pub fn chars_eq(a: &Vec<char>, b: &Vec<char>) -> (r: bool)
    ensures
        r == (a@ == b@),
{
    let n = a.len();
    if b.len() != n {
        proof {
            assert(a@.len() != b@.len());
        }
        return false;
    }
    let mut i: usize = 0;
    while i < n
        invariant
            n == a@.len(),
            b@.len() == n,
            i <= n,
            forall|j: int| 0 <= j < i ==> a@[j] == b@[j],
        decreases n - i,
    {
        if a[i] != b[i] {
            return false;
        }
        i = i + 1;
    }
    proof {
        assert(a@ =~= b@);
    }
    true
}

/// True when `v` holds exactly the characters of `s`.
pub fn chars_eq_str(v: &Vec<char>, s: &str) -> (b: bool)
    ensures
        b == (v@ == s@),
{
    let n = s.unicode_len();
    if v.len() != n {
        proof {
            assert(v@.len() != s@.len());
        }
        return false;
    }
    let mut i: usize = 0;
    while i < n
        invariant
            n == s@.len(),
            v@.len() == n,
            i <= n,
            forall|j: int| 0 <= j < i ==> v@[j] == s@[j],
        decreases n - i,
    {
        if v[i] != s.get_char(i) {
            return false;
        }
        i = i + 1;
    }
    proof {
        assert(v@ =~= s@);
    }
    true
}

/// Appends the characters of a string slice to `out`.
pub fn push_str_chars(out: &mut Vec<char>, s: &str)
    ensures
        final(out)@ == old(out)@ + s@,
{
    let cs = str_to_chars(s);
    push_all(out, &cs);
}

/// Appends the characters of `v` to `out`.
pub fn push_all(out: &mut Vec<char>, v: &Vec<char>)
    ensures
        final(out)@ == old(out)@ + v@,
{
    let mut i: usize = 0;
    while i < v.len()
        invariant
            i <= v@.len(),
            out@ == old(out)@ + v@.subrange(0, i as int),
        decreases v@.len() - i,
    {
        out.push(v[i]);
        proof {
            assert(out@ =~= old(out)@ + v@.subrange(0, i as int + 1));
        }
        i = i + 1;
    }
    proof {
        assert(v@.subrange(0, v@.len() as int) =~= v@);
    }
}

/// The character sequences of a vector of character vectors.
pub open spec fn views(v: Seq<Vec<char>>) -> Seq<Seq<char>> {
    v.map_values(|x: Vec<char>| x@)
}

/// The raw segments of `s` between `sep` characters (empty segments kept).
pub open spec fn spec_split_on(s: Seq<char>, sep: char) -> Seq<Seq<char>>
    decreases s.len(),
{
    if s.len() == 0 {
        seq![Seq::empty()]
    } else if s.last() == sep {
        spec_split_on(s.drop_last(), sep).push(Seq::empty())
    } else {
        let sp = spec_split_on(s.drop_last(), sep);
        sp.update(sp.len() - 1, sp.last().push(s.last()))
    }
}

/// The raw segments of `s` between `sep` characters, as vectors.
pub fn split_on(s: &str, sep: char) -> (r: Vec<Vec<char>>)
    ensures
        views(r@) == spec_split_on(s@, sep),
{
    let cs = str_to_chars(s);
    let mut done: Vec<Vec<char>> = Vec::new();
    let mut cur: Vec<char> = Vec::new();
    let mut i: usize = 0;
    while i < cs.len()
        invariant
            i <= cs@.len(),
            cs@ == s@,
            views(done@).push(cur@) =~= spec_split_on(s@.subrange(0, i as int), sep),
        decreases cs@.len() - i,
    {
        let c = cs[i];
        proof {
            assert(s@.subrange(0, i as int + 1).drop_last() =~= s@.subrange(0, i as int));
            assert(s@.subrange(0, i as int + 1).last() == s@[i as int]);
        }
        let ghost dpre = done@;
        let ghost curpre = cur@;
        if c == sep {
            done.push(cur);
            cur = Vec::new();
            proof {
                assert(views(done@) =~= views(dpre).push(curpre));
            }
        } else {
            cur.push(c);
            proof {
                assert(views(done@) =~= views(dpre));
            }
        }
        i = i + 1;
        proof {
            let pre = s@.subrange(0, i as int);
            if c == sep {
                assert(views(done@).push(cur@) =~= spec_split_on(pre, sep));
            } else {
                let sp = spec_split_on(pre.drop_last(), sep);
                assert(sp =~= views(dpre).push(curpre));
                assert(spec_split_on(pre, sep) =~= sp.update(sp.len() - 1, sp.last().push(s@[i - 1])));
                assert(views(done@).push(cur@) =~= spec_split_on(pre, sep));
            }
        }
    }
    done.push(cur);
    proof {
        assert(s@.subrange(0, s@.len() as int) =~= s@);
        assert(views(done@) =~= spec_split_on(s@, sep));
    }
    done
}

} // verus!
