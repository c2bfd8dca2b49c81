//! Small operations on vectors of characters.

use vstd::prelude::*;

verus! {

/// Copies the characters of `p` from `start` up to `end`.
pub fn copy_range(p: &Vec<char>, start: usize, end: usize) -> (r: Vec<char>)
    requires
        start <= end <= p.len(),
    ensures
        r@ == p@.subrange(start as int, end as int),
{
    let mut r: Vec<char> = Vec::new();
    let mut j: usize = start;
    while j < end
        invariant
            start <= j <= end <= p.len(),
            r@ == p@.subrange(start as int, j as int),
        decreases end - j,
    {
        r.push(p[j]);
        j += 1;
        assert(r@ =~= p@.subrange(start as int, j as int));
    }
    r
}

/// A copy of the whole vector.
pub fn copy_chars(p: &Vec<char>) -> (r: Vec<char>)
    ensures
        r@ == p@,
{
    let r = copy_range(p, 0, p.len());
    assert(r@ =~= p@);
    r
}

/// Appends the characters of `s` to `out`.
pub fn append_chars(out: &mut Vec<char>, s: &Vec<char>)
    ensures
        final(out)@ == old(out)@ + s@,
{
    let ghost before = out@;
    let mut j: usize = 0;
    assert(out@ =~= before + s@.take(0));
    while j < s.len()
        invariant
            j <= s.len(),
            out@ == before + s@.take(j as int),
        decreases s.len() - j,
    {
        out.push(s[j]);
        j += 1;
        assert(out@ =~= before + s@.take(j as int));
    }
    assert(s@.take(j as int) =~= s@);
}

/// Lines joined by single newlines, with none behind the last.
pub open spec fn joined(lines: Seq<Seq<char>>) -> Seq<char>
    decreases lines.len(),
{
    if lines.len() == 0 {
        Seq::<char>::empty()
    } else if lines.len() == 1 {
        lines[0]
    } else {
        joined(lines.drop_last()) + seq!['\n'] + lines.last()
    }
}

/// Lines put one behind the other, with nothing between them.
pub open spec fn concat(lines: Seq<Seq<char>>) -> Seq<char>
    decreases lines.len(),
{
    if lines.len() == 0 {
        Seq::<char>::empty()
    } else {
        lines[0] + concat(lines.skip(1))
    }
}

/// True when `s` begins with `prefix`.
pub open spec fn has_prefix(s: Seq<char>, prefix: Seq<char>) -> bool {
    prefix.len() <= s.len() && s.take(prefix.len() as int) == prefix
}

/// True when `s` ends with `suffix`.
pub open spec fn has_suffix(s: Seq<char>, suffix: Seq<char>) -> bool {
    suffix.len() <= s.len() && s.skip(s.len() - suffix.len()) == suffix
}

/// Tells whether the characters of `s` from `at` on begin with `part`.
pub fn matches_at(s: &Vec<char>, at: usize, part: &Vec<char>) -> (b: bool)
    requires
        at <= s.len(),
    ensures
        b == has_prefix(s@.skip(at as int), part@),
{
    if s.len() - at < part.len() {
        return false;
    }
    let ghost rest = s@.skip(at as int);
    let mut j: usize = 0;
    while j < part.len()
        invariant
            j <= part.len(),
            at + part.len() <= s.len(),
            rest == s@.skip(at as int),
            rest.take(j as int) == part@.take(j as int),
        decreases part.len() - j,
    {
        if s[at + j] != part[j] {
            assert(rest.take(part.len() as int)[j as int] != part@[j as int]);
            return false;
        }
        j += 1;
        assert(rest.take(j as int) =~= rest.take(j - 1).push(rest[j - 1]));
        assert(part@.take(j as int) =~= part@.take(j - 1).push(part@[j - 1]));
    }
    assert(part@.take(j as int) =~= part@);
    true
}

} // verus!
