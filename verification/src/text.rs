//! Character-level string operations that the rest of the library builds on.

use vstd::prelude::*;

verus! {

/// Appends one character to a `String` (std's `String::push`).
/// Trusted: the new contents are the old contents followed by `c`.
#[verifier::external_body]
pub(crate) fn push_char(s: &mut String, c: char)
    ensures
        final(s)@ == old(s)@.push(c),
{
    s.push(c);
}

/// The characters of `s`, in order.
pub fn chars_of(s: &str) -> (v: Vec<char>)
    ensures
        v@ == s@,
{
    let mut v: Vec<char> = Vec::new();
    for c in it: s.chars()
        invariant
            v@ == it.seq().take(it.index() as int),
            it.seq() == s@,
    {
        v.push(c);
    }
    v
}

/// Whether two strings hold the same characters.
pub fn str_eq(a: &str, b: &str) -> (r: bool)
    ensures
        r == (a@ == b@),
{
    let x = chars_of(a);
    let y = chars_of(b);
    if x.len() != y.len() {
        return false;
    }
    let mut i: usize = 0;
    while i < x.len()
        invariant
            x@ == a@,
            y@ == b@,
            x.len() == y.len(),
            i <= x.len(),
            forall|j: int| 0 <= j < i ==> x@[j] == y@[j],
        decreases x.len() - i,
    {
        if x[i] != y[i] {
            return false;
        }
        i = i + 1;
    }
    assert(x@ =~= y@);
    true
}


/// `p` occurs in `s` starting at index `i`.
pub open spec fn starts_at(s: Seq<char>, p: Seq<char>, i: int) -> bool {
    0 <= i && i + p.len() <= s.len() && s.subrange(i, i + p.len()) == p
}

/// `p` occurs somewhere in `s`.
pub open spec fn occurs_in(s: Seq<char>, p: Seq<char>) -> bool {
    exists|i: int| #[trigger] starts_at(s, p, i)
}

/// `s` with every occurrence of `from` replaced by `to`, scanning from the
/// left and never letting two replaced occurrences overlap.
pub open spec fn replaced(s: Seq<char>, from: Seq<char>, to: Seq<char>) -> Seq<char>
    decreases s.len(),
{
    if from.len() == 0 || s.len() < from.len() {
        s
    } else if s.take(from.len() as int) == from {
        to + replaced(s.skip(from.len() as int), from, to)
    } else {
        seq![s[0]] + replaced(s.skip(1), from, to)
    }
}

/// Whether `p` occurs in `x` at index `i`.
fn matches_at(x: &Vec<char>, p: &Vec<char>, i: usize) -> (r: bool)
    requires
        i + p.len() <= x.len(),
    ensures
        r == (x@.subrange(i as int, i + p.len()) == p@),
{
    let mut j: usize = 0;
    while j < p.len()
        invariant
            i + p.len() <= x.len(),
            j <= p.len(),
            forall|k: int| 0 <= k < j ==> x@[i + k] == p@[k],
        decreases p.len() - j,
    {
        if x[i + j] != p[j] {
            assert(x@.subrange(i as int, i + p.len())[j as int] != p@[j as int]);
            return false;
        }
        j = j + 1;
    }
    assert(x@.subrange(i as int, i + p.len()) =~= p@);
    true
}

/// Whether `s` begins with `p`.
pub fn has_prefix(s: &str, p: &str) -> (r: bool)
    ensures
        r == (p@.len() <= s@.len() && s@.take(p@.len() as int) == p@),
{
    let x = chars_of(s);
    let y = chars_of(p);
    if y.len() > x.len() {
        return false;
    }
    let r = matches_at(&x, &y, 0);
    assert(x@.subrange(0, y@.len() as int) =~= x@.take(y@.len() as int));
    r
}

/// Appends `t` to `out`.
pub fn push_str(out: &mut String, t: &str)
    ensures
        final(out)@ == old(out)@ + t@,
{
    out.append(t);
}

/// Replaces every occurrence of `from` in `s` by `to`, as std's
/// `str::replace` does for a non-empty pattern.
pub fn replace_all(s: &str, from: &str, to: &str) -> (r: String)
    requires
        from@.len() > 0,
    ensures
        r@ == replaced(s@, from@, to@),
{
    let x = chars_of(s);
    let p = chars_of(from);
    let mut out = String::new();
    let mut i: usize = 0;
    assert(x@.skip(0) =~= x@);
    assert(out@ + replaced(x@.skip(0), p@, to@) =~= replaced(x@, p@, to@));
    while i < x.len()
        invariant
            x@ == s@,
            p@ == from@,
            p@.len() > 0,
            i <= x.len(),
            out@ + replaced(x@.skip(i as int), p@, to@) == replaced(x@, p@, to@),
        decreases x.len() - i,
    {
        let ghost rest = x@.skip(i as int);
        if p.len() <= x.len() - i && matches_at(&x, &p, i) {
            assert(rest.take(p@.len() as int) =~= x@.subrange(i as int, i + p.len()));
            assert(rest.skip(p@.len() as int) =~= x@.skip(i + p.len()));
            push_str(&mut out, to);
            assert(out@ + replaced(x@.skip(i + p.len()), p@, to@) =~= replaced(x@, p@, to@));
            i = i + p.len();
        } else {
            if p.len() <= x.len() - i {
                assert(rest.take(p@.len() as int) =~= x@.subrange(i as int, i + p.len()));
            }
            assert(rest.skip(1) =~= x@.skip(i + 1));
            assert(rest == seq![rest[0]] + rest.skip(1));
            push_char(&mut out, x[i]);
            assert(out@ + replaced(x@.skip(i + 1), p@, to@) =~= replaced(x@, p@, to@));
            i = i + 1;
        }
    }
    assert(x@.skip(x.len() as int) =~= Seq::<char>::empty());
    assert(out@ =~= replaced(x@, p@, to@));
    out
}

} // verus!
