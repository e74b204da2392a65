//! Text primitives shared by the whole crate.
//!
//! Every string is reasoned about through its view, a `Seq<char>`. The
//! functions here search, cut and rebuild text and say exactly which
//! sequence of characters comes out.

use vstd::prelude::*;
use vstd::string::*;

verus! {

/// `pat` occurs in `s` starting at offset `i`.
pub open spec fn occurs_at(s: Seq<char>, pat: Seq<char>, i: int) -> bool {
    0 <= i && i + pat.len() <= s.len() && s.subrange(i, i + pat.len()) == pat
}

/// `pat` occurs somewhere in `s`.
pub open spec fn contains_text(s: Seq<char>, pat: Seq<char>) -> bool {
    exists|i: int| occurs_at(s, pat, i)
}

/// `s` begins with `pat`.
pub open spec fn starts_with_text(s: Seq<char>, pat: Seq<char>) -> bool {
    occurs_at(s, pat, 0)
}

/// `to` before every character of `s`, and at its end.
pub open spec fn interleaved(s: Seq<char>, to: Seq<char>) -> Seq<char>
    decreases s.len(),
{
    if s.len() == 0 {
        to
    } else {
        to + seq![s[0]] + interleaved(s.subrange(1, s.len() as int), to)
    }
}

/// `s` with every occurrence of `from` replaced by `to`, scanning from the
/// left and never looking again at replaced text. An empty `from` occurs
/// before every character and at the end.
pub open spec fn replaced(s: Seq<char>, from: Seq<char>, to: Seq<char>) -> Seq<char>
    decreases s.len(),
{
    if from.len() == 0 {
        interleaved(s, to)
    } else if s.len() < from.len() {
        s
    } else if s.subrange(0, from.len() as int) == from {
        to + replaced(s.subrange(from.len() as int, s.len() as int), from, to)
    } else {
        seq![s[0]] + replaced(s.subrange(1, s.len() as int), from, to)
    }
}

/// Length of the run of characters other than `sep` at the start of `s`.
pub open spec fn run_len(s: Seq<char>, sep: char) -> int
    decreases s.len(),
{
    if s.len() == 0 || s[0] == sep {
        0
    } else {
        1 + run_len(s.subrange(1, s.len() as int), sep)
    }
}

/// The maximal non-empty runs of characters other than `sep`, in order.
pub open spec fn fields(s: Seq<char>, sep: char) -> Seq<Seq<char>>
    decreases s.len(),
{
    if s.len() == 0 {
        Seq::<Seq<char>>::empty()
    } else if s[0] == sep {
        fields(s.subrange(1, s.len() as int), sep)
    } else {
        let n = run_len(s, sep);
        if 0 < n <= s.len() {
            seq![s.subrange(0, n)] + fields(s.subrange(n, s.len() as int), sep)
        } else {
            Seq::<Seq<char>>::empty()
        }
    }
}

/// The characters that Unicode gives the property `White_Space`.
pub open spec fn is_whitespace_char(c: char) -> bool {
    let n = c as u32;
    (0x09 <= n <= 0x0D) || n == 0x20 || n == 0x85 || n == 0xA0 || n == 0x1680 || (0x2000 <= n
        <= 0x200A) || n == 0x2028 || n == 0x2029 || n == 0x202F || n == 0x205F || n == 0x3000
}

/// `s` without the whitespace at its end.
pub open spec fn trimmed_end(s: Seq<char>) -> Seq<char>
    decreases s.len(),
{
    if s.len() > 0 && is_whitespace_char(s.last()) {
        trimmed_end(s.drop_last())
    } else {
        s
    }
}

/// The index of the last occurrence of `c` in `s`, or -1.
pub open spec fn last_index_of(s: Seq<char>, c: char) -> int
    decreases s.len(),
{
    if s.len() == 0 {
        -1
    } else if s.last() == c {
        s.len() - 1
    } else {
        last_index_of(s.drop_last(), c)
    }
}

/// What the length of the first run is: all characters of the run are
/// other than `sep`, and the run ends at the end of `s` or before a `sep`.
pub proof fn lemma_run_len_bounds(s: Seq<char>, sep: char)
    ensures
        0 <= run_len(s, sep) <= s.len(),
        forall|k: int| 0 <= k < run_len(s, sep) ==> s[k] != sep,
        run_len(s, sep) < s.len() ==> s[run_len(s, sep)] == sep,
    decreases s.len(),
{
    if s.len() == 0 || s[0] == sep {
    } else {
        let t = s.subrange(1, s.len() as int);
        lemma_run_len_bounds(t, sep);
        assert forall|k: int| 0 <= k < run_len(s, sep) implies s[k] != sep by {
            if k > 0 {
                assert(s[k] == t[k - 1]);
            }
        }
        if run_len(s, sep) < s.len() {
            assert(s[run_len(s, sep)] == t[run_len(t, sep)]);
        }
    }
}

/// What the index of the last occurrence is: `c` stands there, and
/// nowhere behind it.
pub proof fn lemma_last_index_of(s: Seq<char>, c: char)
    ensures
        -1 <= last_index_of(s, c) < s.len(),
        last_index_of(s, c) >= 0 ==> s[last_index_of(s, c)] == c,
        forall|k: int| last_index_of(s, c) < k < s.len() ==> s[k] != c,
    decreases s.len(),
{
    if s.len() > 0 && s.last() != c {
        lemma_last_index_of(s.drop_last(), c);
        assert forall|k: int| last_index_of(s, c) < k < s.len() implies s[k] != c by {
            if k < s.len() - 1 {
                assert(s[k] == s.drop_last()[k]);
            }
        }
    }
}

/// The characters of a string as a vector.
pub fn chars_of(s: &str) -> (v: Vec<char>)
    ensures
        v@ == s@,
{
    broadcast use vstd::string::group_string_axioms;

    let mut v: Vec<char> = Vec::new();
    for c in it: s.chars()
        invariant
            it.seq() == s@,
            v@ == s@.subrange(0, it.index() as int),
    {
        v.push(c);
        assert(v@ =~= s@.subrange(0, it.index() + 1));
    }
    assert(v@ =~= s@);
    v
}

/// Two strings joined.
pub fn concat(a: &str, b: &str) -> (r: String)
    ensures
        r@ == a@ + b@,
{
    let mut r = String::from_str(a);
    r.append(b);
    r
}

/// Three strings joined.
pub fn concat3(a: &str, b: &str, c: &str) -> (r: String)
    ensures
        r@ == a@ + b@ + c@,
{
    let mut r = String::from_str(a);
    r.append(b);
    r.append(c);
    r
}

/// Whether two strings hold the same characters.
pub fn same_text(a: &str, b: &str) -> (r: bool)
    ensures
        r == (a@ == b@),
{
    let x = String::from_str(a);
    let y = String::from_str(b);
    x == y
}

/// Whether `pat` occurs in `s` at offset `i`.
pub fn occurs_at_in(s: &Vec<char>, pat: &Vec<char>, i: usize) -> (r: bool)
    ensures
        r == occurs_at(s@, pat@, i as int),
{
    let n = s.len();
    let m = pat.len();
    if i > n || m > n - i {
        return false;
    }
    let mut j: usize = 0;
    while j < m
        invariant
            n == s@.len(),
            m == pat@.len(),
            i + m <= n,
            j <= m,
            forall|k: int| 0 <= k < j ==> s@[i + k] == pat@[k],
        decreases m - j,
    {
        if s[i + j] != pat[j] {
            proof {
                assert(s@.subrange(i as int, i + m)[j as int] == s@[i + j]);
            }
            return false;
        }
        j = j + 1;
    }
    assert(s@.subrange(i as int, i + m) =~= pat@);
    true
}

/// The first offset at or after `from` at which `pat` occurs in `s`.
pub fn find_from(s: &Vec<char>, pat: &Vec<char>, from: usize) -> (r: Option<usize>)
    ensures
        match r {
            Some(i) => from <= i && occurs_at(s@, pat@, i as int) && forall|k: int|
                from <= k < i ==> !occurs_at(s@, pat@, k),
            None => forall|k: int| from <= k ==> !occurs_at(s@, pat@, k),
        },
{
    let n = s.len();
    let m = pat.len();
    if m > n || from > n - m {
        return None;
    }
    let last = n - m;
    let mut i: usize = from;
    while i < last
        invariant
            n == s@.len(),
            m == pat@.len(),
            last == n - m,
            from <= i <= last,
            forall|k: int| from <= k < i ==> !occurs_at(s@, pat@, k),
        decreases last - i,
    {
        if occurs_at_in(s, pat, i) {
            return Some(i);
        }
        i = i + 1;
    }
    if occurs_at_in(s, pat, last) {
        Some(last)
    } else {
        None
    }
}

/// Whether `pat` occurs in `s`.
pub fn contains(s: &str, pat: &str) -> (r: bool)
    ensures
        r == contains_text(s@, pat@),
{
    let sv = chars_of(s);
    let pv = chars_of(pat);
    match find_from(&sv, &pv, 0) {
        Some(i) => {
            assert(occurs_at(s@, pat@, i as int));
            true
        },
        None => false,
    }
}

/// Whether `s` begins with `pat`.
pub fn starts_with(s: &str, pat: &str) -> (r: bool)
    ensures
        r == starts_with_text(s@, pat@),
{
    let sv = chars_of(s);
    let pv = chars_of(pat);
    occurs_at_in(&sv, &pv, 0)
}

/// `to` before every character of `s`, and at its end.
pub fn interleave(s: &str, to: &str) -> (r: String)
    ensures
        r@ == interleaved(s@, to@),
{
    let n = s.unicode_len();
    let mut out = String::new();
    let mut i: usize = 0;
    assert(s@.subrange(0, n as int) =~= s@);
    assert(out@ + interleaved(s@, to@) =~= interleaved(s@, to@));
    while i < n
        invariant
            n == s@.len(),
            i <= n,
            out@ + interleaved(s@.subrange(i as int, n as int), to@) == interleaved(s@, to@),
        decreases n - i,
    {
        let ghost rest = s@.subrange(i as int, n as int);
        let ghost after = interleaved(s@.subrange(i + 1, n as int), to@);
        let piece = s.substring_char(i, i + 1);
        proof {
            assert(rest.subrange(1, rest.len() as int) =~= s@.subrange(i + 1, n as int));
            assert(piece@ =~= seq![rest[0]]);
            assert(out@ + (to@ + seq![rest[0]] + after) =~= (out@ + to@ + piece@) + after);
        }
        out.append(to);
        out.append(piece);
        i = i + 1;
    }
    assert(out@ + to@ =~= out@ + interleaved(s@.subrange(n as int, n as int), to@));
    out.append(to);
    out
}

/// `s` with every occurrence of `from` replaced by `to`.
pub fn replace_all(s: &str, from: &str, to: &str) -> (r: String)
    ensures
        r@ == replaced(s@, from@, to@),
{
    let sv = chars_of(s);
    let fv = chars_of(from);
    let n = sv.len();
    let m = fv.len();
    if m == 0 {
        return interleave(s, to);
    }
    let mut out = String::new();
    let mut start: usize = 0;
    let mut i: usize = 0;
    assert(s@.subrange(0, n as int) =~= s@);
    assert(out@ + s@.subrange(0, 0) + replaced(s@, from@, to@) =~= replaced(s@, from@, to@));
    while i < n && m <= n - i
        invariant
            sv@ == s@,
            fv@ == from@,
            n == s@.len(),
            m == from@.len(),
            m > 0,
            start <= i <= n,
            out@ + s@.subrange(start as int, i as int) + replaced(
                s@.subrange(i as int, n as int),
                from@,
                to@,
            ) == replaced(s@, from@, to@),
        decreases n - i,
    {
        let ghost rest = s@.subrange(i as int, n as int);
        let ghost kept = s@.subrange(start as int, i as int);
        if occurs_at_in(&sv, &fv, i) {
            let ghost after = replaced(s@.subrange(i + m, n as int), from@, to@);
            proof {
                assert(rest.subrange(0, m as int) =~= s@.subrange(i as int, i + m));
                assert(rest.subrange(m as int, rest.len() as int) =~= s@.subrange(
                    i + m,
                    n as int,
                ));
                assert(out@ + kept + (to@ + after) =~= (out@ + kept + to@) + s@.subrange(
                    i + m,
                    i + m,
                ) + after);
            }
            out.append(s.substring_char(start, i));
            out.append(to);
            i = i + m;
            start = i;
        } else {
            let ghost after = replaced(s@.subrange(i + 1, n as int), from@, to@);
            proof {
                assert(rest.subrange(0, m as int) =~= s@.subrange(i as int, i + m));
                assert(rest.subrange(1, rest.len() as int) =~= s@.subrange(i + 1, n as int));
                assert(out@ + kept + (seq![rest[0]] + after) =~= out@ + s@.subrange(
                    start as int,
                    i + 1,
                ) + after);
            }
            i = i + 1;
        }
    }
    proof {
        assert(replaced(s@.subrange(i as int, n as int), from@, to@) == s@.subrange(
            i as int,
            n as int,
        ));
        assert(s@.subrange(start as int, i as int) + s@.subrange(i as int, n as int)
            =~= s@.subrange(start as int, n as int));
        assert(out@ + s@.subrange(start as int, i as int) + s@.subrange(i as int, n as int)
            =~= out@ + s@.subrange(start as int, n as int));
    }
    out.append(s.substring_char(start, n));
    out
}

/// The maximal non-empty runs of characters other than `sep` in `s`.
pub fn split_fields(s: &str, sep: char) -> (r: Vec<String>)
    ensures
        r.deep_view() == fields(s@, sep),
{
    let sv = chars_of(s);
    let n = sv.len();
    let mut out: Vec<String> = Vec::new();
    let mut i: usize = 0;
    assert(out.deep_view() =~= Seq::<Seq<char>>::empty());
    assert(s@.subrange(0, n as int) =~= s@);
    while i < n
        invariant
            sv@ == s@,
            n == s@.len(),
            i <= n,
            out.deep_view() + fields(s@.subrange(i as int, n as int), sep) == fields(s@, sep),
        decreases n - i,
    {
        let ghost rest = s@.subrange(i as int, n as int);
        if sv[i] == sep {
            proof {
                assert(rest.subrange(1, rest.len() as int) =~= s@.subrange(i + 1, n as int));
            }
            i = i + 1;
        } else {
            let start = i;
            let mut j: usize = i;
            while j < n && sv[j] != sep
                invariant
                    sv@ == s@,
                    n == s@.len(),
                    start <= j <= n,
                    rest == s@.subrange(start as int, n as int),
                    run_len(rest, sep) == (j - start) + run_len(
                        s@.subrange(j as int, n as int),
                        sep,
                    ),
                decreases n - j,
            {
                proof {
                    let t = s@.subrange(j as int, n as int);
                    assert(t.subrange(1, t.len() as int) =~= s@.subrange(j + 1, n as int));
                }
                j = j + 1;
            }
            let word = s.substring_char(start, j);
            let owned = String::from_str(word);
            proof {
                assert(run_len(rest, sep) == j - start);
                assert(rest.subrange(0, j - start) =~= s@.subrange(start as int, j as int));
                assert(rest.subrange(j - start, rest.len() as int) =~= s@.subrange(
                    j as int,
                    n as int,
                ));
                let ghost before = out.deep_view();
                assert(before.push(owned@) + fields(s@.subrange(j as int, n as int), sep)
                    =~= before + (seq![owned@] + fields(s@.subrange(j as int, n as int), sep)));
            }
            let ghost before = out.deep_view();
            out.push(owned);
            assert(out.deep_view() =~= before.push(owned@));
            i = j;
        }
    }
    assert(out.deep_view() + Seq::<Seq<char>>::empty() =~= out.deep_view());
    out
}

/// Whether `c` is a whitespace character.
pub fn is_whitespace(c: char) -> (r: bool)
    ensures
        r == is_whitespace_char(c),
{
    let n: u32 = c as u32;
    (0x09 <= n && n <= 0x0D) || n == 0x20 || n == 0x85 || n == 0xA0 || n == 0x1680 || (0x2000 <= n
        && n <= 0x200A) || n == 0x2028 || n == 0x2029 || n == 0x202F || n == 0x205F || n == 0x3000
}

/// `s` without the whitespace at its end.
pub fn trim_end(s: &str) -> (r: String)
    ensures
        r@ == trimmed_end(s@),
{
    let sv = chars_of(s);
    let mut n: usize = sv.len();
    assert(s@.subrange(0, n as int) =~= s@);
    while n > 0 && is_whitespace(sv[n - 1])
        invariant
            sv@ == s@,
            n <= s@.len(),
            trimmed_end(s@.subrange(0, n as int)) == trimmed_end(s@),
        decreases n,
    {
        proof {
            let t = s@.subrange(0, n as int);
            assert(t.drop_last() =~= s@.subrange(0, n - 1));
        }
        n = n - 1;
    }
    String::from_str(s.substring_char(0, n))
}

/// The index of the last occurrence of `c` in `s`.
pub fn last_index(s: &Vec<char>, c: char) -> (r: Option<usize>)
    ensures
        match r {
            Some(i) => i as int == last_index_of(s@, c),
            None => last_index_of(s@, c) == -1,
        },
{
    let mut n: usize = s.len();
    assert(s@.subrange(0, n as int) =~= s@);
    while n > 0
        invariant
            n <= s@.len(),
            last_index_of(s@.subrange(0, n as int), c) == last_index_of(s@, c),
        decreases n,
    {
        if s[n - 1] == c {
            return Some(n - 1);
        }
        proof {
            let t = s@.subrange(0, n as int);
            assert(t.drop_last() =~= s@.subrange(0, n - 1));
        }
        n = n - 1;
    }
    None
}

} // verus!
