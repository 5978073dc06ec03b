use vstd::prelude::*;

verus! {

broadcast use vstd::string::group_string_axioms;

/// Whether `needle` occurs in `hay` as a contiguous run.
pub open spec fn seq_contains(hay: Seq<char>, needle: Seq<char>) -> bool {
    exists|i: int| 0 <= i && i + needle.len() <= hay.len() && #[trigger] hay.subrange(i, i + needle.len()) == needle
}

/// The characters of `s`, in order.
pub fn chars_of(s: &str) -> (v: Vec<char>)
    ensures
        v@ == s@,
{
    let mut v: Vec<char> = Vec::new();
    for c in it: s.chars()
        invariant
            it.seq() == s@,
            v@ == it.seq().take(it.index() as int),
    {
        proof {
            assert(it.seq().take(it.index() as int).push(c) =~= it.seq().take(it.index() + 1));
        }
        v.push(c);
    }
    assert(v@ =~= s@);
    v
}

/// The string made of the characters `v`.
/// Relies on collecting an iterator of `char` into a `String`, which keeps the
/// characters and their order.
#[verifier::external_body]
pub(crate) fn string_from_chars(v: &Vec<char>) -> (r: String)
    ensures
        r@ == v@,
{
    v.iter().collect()
}

/// Whether `needle` occurs in `hay` at position `i`.
fn matches_at(hay: &Vec<char>, needle: &Vec<char>, i: usize) -> (r: bool)
    requires
        i + needle@.len() <= hay@.len(),
    ensures
        r == (hay@.subrange(i as int, i + needle@.len()) == needle@),
{
    let hl: usize = hay.len();
    let mut j: usize = 0;
    while j < needle.len()
        invariant
            hl == hay@.len(),
            i + needle@.len() <= hay@.len(),
            j <= needle@.len(),
            forall|k: int| 0 <= k < j ==> hay@[i + k] == needle@[k],
        decreases needle@.len() - j,
    {
        if hay[i + j] != needle[j] {
            assert(hay@.subrange(i as int, i + needle@.len())[j as int] != needle@[j as int]);
            return false;
        }
        j = j + 1;
    }
    assert(hay@.subrange(i as int, i + needle@.len()) =~= needle@);
    true
}

/// Whether `needle` occurs in `hay`.
pub fn contains_chars(hay: &Vec<char>, needle: &Vec<char>) -> (r: bool)
    ensures
        r == seq_contains(hay@, needle@),
{
    if needle.len() > hay.len() {
        return false;
    }
    if needle.len() == 0 {
        assert(hay@.subrange(0int, 0int + needle@.len()) =~= needle@);
        return true;
    }
    let hl: usize = hay.len();
    let last: usize = hl - needle.len();
    let mut i: usize = 0;
    while i <= last
        invariant
            last + needle@.len() == hay@.len(),
            hl == hay@.len(),
            needle@.len() > 0,
            forall|k: int| 0 <= k < i ==> #[trigger] hay@.subrange(k, k + needle@.len()) != needle@,
        decreases last + 1 - i,
    {
        if matches_at(hay, needle, i) {
            return true;
        }
        i = i + 1;
    }
    false
}

/// Whether `needle` occurs in `hay`.
pub fn str_contains(hay: &str, needle: &str) -> (r: bool)
    ensures
        r == seq_contains(hay@, needle@),
{
    let h = chars_of(hay);
    let n = chars_of(needle);
    contains_chars(&h, &n)
}

/// `s` with every occurrence of `from`, taken from left to right without
/// overlap, replaced by `to`.
pub open spec fn replace_all(s: Seq<char>, from: Seq<char>, to: Seq<char>) -> Seq<char>
    decreases s.len(),
{
    if from.len() == 0 || s.len() < from.len() {
        s
    } else if s.subrange(0, from.len() as int) == from {
        to + replace_all(s.subrange(from.len() as int, s.len() as int), from, to)
    } else {
        seq![s[0]] + replace_all(s.subrange(1, s.len() as int), from, to)
    }
}

/// Replaces every occurrence of a non-empty `from` in `s` by `to`.
pub fn replace_all_chars(s: &Vec<char>, from: &Vec<char>, to: &Vec<char>) -> (r: Vec<char>)
    requires
        from@.len() > 0,
    ensures
        r@ == replace_all(s@, from@, to@),
{
    let n: usize = s.len();
    let m: usize = from.len();
    let mut out: Vec<char> = Vec::new();
    let mut i: usize = 0;
    proof {
        assert(s@.subrange(0, n as int) =~= s@);
        assert(out@ + replace_all(s@, from@, to@) =~= replace_all(s@, from@, to@));
    }
    while i < n
        invariant
            n == s@.len(),
            m == from@.len(),
            m > 0,
            i <= n,
            out@ + replace_all(s@.subrange(i as int, n as int), from@, to@) == replace_all(s@, from@, to@),
        decreases n - i,
    {
        let rest = Ghost(s@.subrange(i as int, n as int));
        if n - i >= m && matches_at(s, from, i) {
            proof {
                assert(rest@.subrange(0, m as int) =~= s@.subrange(i as int, i + m));
                assert(rest@.subrange(m as int, rest@.len() as int) =~= s@.subrange(i + m, n as int));
            }
            let mut j: usize = 0;
            let ghost out0 = out@;
            while j < to.len()
                invariant
                    j <= to@.len(),
                    out@ == out0 + to@.take(j as int),
                decreases to@.len() - j,
            {
                proof {
                    assert(to@.take(j as int).push(to@[j as int]) =~= to@.take(j + 1));
                }
                out.push(to[j]);
                j = j + 1;
            }
            proof {
                assert(to@.take(j as int) =~= to@);
                assert(out0 + (to@ + replace_all(s@.subrange(i + m, n as int), from@, to@))
                    =~= out@ + replace_all(s@.subrange(i + m, n as int), from@, to@));
            }
            i = i + m;
        } else {
            proof {
                if n - i >= m {
                    assert(rest@.subrange(0, m as int) =~= s@.subrange(i as int, i + m));
                }
                assert(rest@.subrange(1, rest@.len() as int) =~= s@.subrange(i + 1, n as int));
                assert(out@ + (seq![s@[i as int]] + replace_all(s@.subrange(i + 1, n as int), from@, to@))
                    =~= out@.push(s@[i as int]) + replace_all(s@.subrange(i + 1, n as int), from@, to@));
            }
            out.push(s[i]);
            i = i + 1;
        }
    }
    proof {
        assert(out@ + replace_all(s@.subrange(n as int, n as int), from@, to@) == replace_all(s@, from@, to@));
        assert(s@.subrange(n as int, n as int).len() == 0);
        assert(out@ + s@.subrange(n as int, n as int) =~= out@);
    }
    out
}

} // verus!
