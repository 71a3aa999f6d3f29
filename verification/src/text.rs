//! Character-level text utilities: splitting on a separator, building
//! strings back up, and rendering decimal numbers. The HTTP front end is
//! parsed with these.
use vstd::prelude::*;
use vstd::slice::{slice_subrange, slice_to_vec};
use vstd::string::StrSliceExecFns;

verus! {

/// Relies on String::push: appends one character to the string.
#[verifier::external_body]
pub fn push_char(s: &mut String, c: char)
    ensures
        final(s)@ == old(s)@.push(c),
{
    s.push(c);
}

/// The characters of a string, as a vector.
pub fn chars_vec(s: &str) -> (r: Vec<char>)
    ensures
        r@ == s@,
{
    let n = s.unicode_len();
    let mut r: Vec<char> = Vec::new();
    let mut i: usize = 0;
    while i < n
        invariant
            n == s@.len(),
            i <= n,
            r@ == s@.subrange(0, i as int),
        decreases n - i,
    {
        r.push(s.get_char(i));
        i = i + 1;
        proof {
            assert(r@ =~= s@.subrange(0, i as int));
        }
    }
    proof {
        assert(r@ =~= s@);
    }
    r
}

/// A string holding the given characters.
pub fn string_of_chars(v: &[char]) -> (r: String)
    ensures
        r@ == v@,
{
    let mut s = String::new();
    let mut i: usize = 0;
    while i < v.len()
        invariant
            i <= v@.len(),
            s@ == v@.subrange(0, i as int),
        decreases v@.len() - i,
    {
        push_char(&mut s, v[i]);
        i = i + 1;
        proof {
            assert(s@ =~= v@.subrange(0, i as int));
        }
    }
    proof {
        assert(s@ =~= v@);
    }
    s
}

/// Whether two character slices hold the same characters.
pub fn chars_eq(a: &[char], b: &[char]) -> (r: bool)
    ensures
        r == (a@ == b@),
{
    if a.len() != b.len() {
        proof {
            assert(a@ != b@);
        }
        return false;
    }
    let mut i: usize = 0;
    while i < a.len()
        invariant
            i <= a@.len(),
            a@.len() == b@.len(),
            forall|j: int| 0 <= j < i ==> a@[j] == b@[j],
        decreases a@.len() - i,
    {
        if a[i] != b[i] {
            return false;
        }
        i = i + 1;
    }
    proof {
        assert(a@ =~= b@);
    }
    true
}

/// The first position at or after `i` where `sep` occurs in `s`.
pub open spec fn spec_find_at(s: Seq<char>, sep: Seq<char>, i: int) -> Option<int>
    decreases s.len() - i,
{
    if sep.len() < 1 || i < 0 || i + sep.len() > s.len() {
        None
    } else if s.subrange(i, i + sep.len()) == sep {
        Some(i)
    } else {
        spec_find_at(s, sep, i + 1)
    }
}

/// A found occurrence lies within the text, matches the separator, and is
/// the first one at or after the starting position.
pub proof fn lemma_find_at_bounds(s: Seq<char>, sep: Seq<char>, i: int)
    requires
        0 <= i,
    ensures
        spec_find_at(s, sep, i) matches Some(j) ==> i <= j && j + sep.len() <= s.len()
            && s.subrange(j, j + sep.len()) == sep,
    decreases s.len() - i,
{
    if 1 <= sep.len() && i + sep.len() <= s.len() && s.subrange(i, i + sep.len()) != sep {
        lemma_find_at_bounds(s, sep, i + 1);
    }
}

/// The first position at or after `from` where `sep` occurs in `s`,
/// exactly as `spec_find_at` says.
pub fn find_chars_at(s: &[char], sep: &[char], from: usize) -> (r: Option<usize>)
    requires
        1 <= sep@.len(),
    ensures
        match r {
            Some(j) => spec_find_at(s@, sep@, from as int) == Some(j as int),
            None => spec_find_at(s@, sep@, from as int) is None,
        },
{
    if sep.len() > s.len() {
        return None;
    }
    let last_start = s.len() - sep.len();
    let mut i = from;
    while i <= last_start
        invariant
            from <= i,
            1 <= sep@.len() <= s@.len(),
            s@.len() <= usize::MAX as int,
            last_start == s@.len() - sep@.len(),
            spec_find_at(s@, sep@, from as int) == spec_find_at(s@, sep@, i as int),
        decreases last_start + 1 - i,
    {
        if chars_eq(slice_subrange(s, i, i + sep.len()), sep) {
            return Some(i);
        }
        i = i + 1;
        proof {
            assert(spec_find_at(s@, sep@, i - 1) == spec_find_at(s@, sep@, i as int));
        }
    }
    proof {
        assert(spec_find_at(s@, sep@, i as int) is None);
    }
    None
}

/// The spec-level image of a list of character vectors.
pub open spec fn spec_charses_view(ls: Seq<Vec<char>>) -> Seq<Seq<char>> {
    Seq::new(ls.len(), |i: int| ls[i]@)
}

/// The segments of `s` between successive occurrences of `sep`, leftmost
/// occurrence first; a text with no occurrence is one segment.
pub open spec fn spec_split(s: Seq<char>, sep: Seq<char>) -> Seq<Seq<char>>
    decreases s.len(),
{
    if sep.len() < 1 {
        seq![s]
    } else {
        match spec_find_at(s, sep, 0) {
            None => seq![s],
            Some(j) => {
                proof {
                    lemma_find_at_bounds(s, sep, 0);
                }
                seq![s.subrange(0, j)] + spec_split(s.subrange(j + sep.len(), s.len() as int), sep)
            },
        }
    }
}

/// Splits `s` at every occurrence of `sep`, exactly as `spec_split` says.
pub fn split_chars(s: &[char], sep: &[char]) -> (r: Vec<Vec<char>>)
    requires
        1 <= sep@.len(),
    ensures
        spec_charses_view(r@) == spec_split(s@, sep@),
    decreases s@.len(),
{
    match find_chars_at(s, sep, 0) {
        None => {
            let mut r: Vec<Vec<char>> = Vec::new();
            r.push(slice_to_vec(s));
            proof {
                assert(spec_charses_view(r@) =~~= spec_split(s@, sep@));
            }
            r
        },
        Some(j) => {
            proof {
                lemma_find_at_bounds(s@, sep@, 0);
            }
            let n = s.len();
            let head = slice_to_vec(slice_subrange(s, 0, j));
            let tail = slice_subrange(s, j + sep.len(), n);
            let mut r = split_chars(tail, sep);
            r.insert(0, head);
            proof {
                assert(spec_charses_view(r@) =~~= spec_split(s@, sep@));
            }
            r
        },
    }
}

/// The decimal digit characters, least value first.
pub open spec fn spec_digit(d: int) -> char
    recommends
        0 <= d < 10,
{
    seq!['0', '1', '2', '3', '4', '5', '6', '7', '8', '9'][d]
}

/// The decimal rendering of a non-negative number, most significant digit
/// first.
pub open spec fn spec_dec(n: int) -> Seq<char>
    recommends
        0 <= n,
    decreases n,
{
    if n < 10 {
        seq![spec_digit(n)]
    } else {
        spec_dec(n / 10) + seq![spec_digit(n % 10)]
    }
}

/// The character of one decimal digit.
fn digit_char(d: u8) -> (r: char)
    requires
        d < 10,
    ensures
        r == spec_digit(d as int),
{
    match d {
        0 => '0',
        1 => '1',
        2 => '2',
        3 => '3',
        4 => '4',
        5 => '5',
        6 => '6',
        7 => '7',
        8 => '8',
        _ => '9',
    }
}

/// The decimal digits of a number, most significant first.
fn u64_to_dec(n: u64) -> (r: Vec<char>)
    ensures
        r@ == spec_dec(n as int),
    decreases n,
{
    if n < 10 {
        let mut v: Vec<char> = Vec::new();
        v.push(digit_char(n as u8));
        proof {
            assert(v@ =~= spec_dec(n as int));
        }
        v
    } else {
        let mut v = u64_to_dec(n / 10);
        v.push(digit_char((n % 10) as u8));
        proof {
            assert(v@ =~= spec_dec(n as int));
        }
        v
    }
}

/// The decimal rendering of a number, as a string.
pub fn u64_to_dec_string(n: u64) -> (r: String)
    ensures
        r@ == spec_dec(n as int),
{
    let v = u64_to_dec(n);
    string_of_chars(v.as_slice())
}

} // verus!
