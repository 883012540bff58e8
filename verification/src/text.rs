//! Byte-sequence utilities shared by the parser, router and encoder: ASCII
//! literals, whitespace trimming, substring search, splitting and
//! tokenization, each with a spec-level definition.
use vstd::prelude::*;

verus! {

use vstd::slice::slice_subrange;
use vstd::slice::slice_to_vec;

/// The bytes of an ASCII character sequence, one byte per character.
pub open spec fn ascii_seq(s: Seq<char>) -> Seq<u8> {
    Seq::new(s.len(), |i: int| s[i] as u8)
}

/// Copies the bytes of an ASCII string slice into a fresh vector.
pub fn ascii_bytes(s: &str) -> (r: Vec<u8>)
    requires
        vstd::string::is_ascii(s),
    ensures
        r@ == ascii_seq(s@),
{
    proof {
        broadcast use vstd::string::is_ascii_spec_bytes;

    }
    let b = s.as_bytes();
    let v = slice_to_vec(b);
    proof {
        assert(v@ =~= ascii_seq(s@));
    }
    v
}

/// An ASCII whitespace byte: space, tab, line feed, vertical tab, form feed
/// or carriage return.
pub open spec fn is_ws(b: u8) -> bool {
    b == 32 || (9 <= b && b <= 13)
}

/// Decides `is_ws`.
pub fn is_ws_byte(b: u8) -> (r: bool)
    ensures
        r == is_ws(b),
{
    b == 32 || (9 <= b && b <= 13)
}

/// Decides equality of two byte slices.
pub fn bytes_eq(a: &[u8], b: &[u8]) -> (r: bool)
    ensures
        r == (a@ == b@),
{
    if a.len() != b.len() {
        return false;
    }
    let mut i: usize = 0;
    while i < a.len()
        invariant
            a@.len() == b@.len(),
            0 <= i <= a@.len(),
            forall|j: int| 0 <= j < i ==> a@[j] == b@[j],
        decreases a@.len() - i,
    {
        if a[i] != b[i] {
            return false;
        }
        i = i + 1;
    }
    proof {
        assert(a@ =~= b@);
    }
    true
}

/// `p` is an initial segment of `s`.
pub open spec fn is_prefix(p: Seq<u8>, s: Seq<u8>) -> bool {
    p.len() <= s.len() && s.subrange(0, p.len() as int) == p
}

/// Decides `is_prefix`.
pub fn starts_with(s: &[u8], p: &[u8]) -> (r: bool)
    ensures
        r == is_prefix(p@, s@),
{
    if p.len() > s.len() {
        return false;
    }
    bytes_eq(slice_subrange(s, 0, p.len()), p)
}

/// The position of the first occurrence of `pat` in `s`, if any.
/// An empty pattern is never found.
pub open spec fn find_sub(s: Seq<u8>, pat: Seq<u8>) -> Option<int>
    decreases s.len(),
{
    if pat.len() == 0 || pat.len() > s.len() {
        None
    } else if s.subrange(0, pat.len() as int) == pat {
        Some(0int)
    } else {
        match find_sub(s.drop_first(), pat) {
            Some(i) => Some(i + 1),
            None => None,
        }
    }
}

pub proof fn lemma_find_sub_bounds(s: Seq<u8>, pat: Seq<u8>)
    ensures
        find_sub(s, pat) matches Some(i) ==> 0 <= i && i + pat.len() <= s.len() && 1 <= pat.len(),
    decreases s.len(),
{
    if pat.len() == 0 || pat.len() > s.len() {
    } else if s.subrange(0, pat.len() as int) == pat {
    } else {
        lemma_find_sub_bounds(s.drop_first(), pat);
    }
}

/// `pat` occurs somewhere in `s`.
pub open spec fn contains_sub(s: Seq<u8>, pat: Seq<u8>) -> bool {
    find_sub(s, pat) is Some
}

/// Finds the first occurrence of `pat` in `s`.
pub fn find_sub_index(s: &[u8], pat: &[u8]) -> (r: Option<usize>)
    ensures
        match r {
            Some(i) => find_sub(s@, pat@) == Some(i as int) && i + pat@.len() <= s@.len(),
            None => find_sub(s@, pat@) is None,
        },
    decreases s@.len(),
{
    if pat.len() == 0 || pat.len() > s.len() {
        None
    } else if bytes_eq(slice_subrange(s, 0, pat.len()), pat) {
        Some(0)
    } else {
        let rest = slice_subrange(s, 1, s.len());
        proof {
            assert(rest@ =~= s@.drop_first());
        }
        match find_sub_index(rest, pat) {
            Some(i) => Some(i + 1),
            None => None,
        }
    }
}

/// Decides `contains_sub`.
pub fn contains_sub_bytes(s: &[u8], pat: &[u8]) -> (r: bool)
    ensures
        r == contains_sub(s@, pat@),
{
    match find_sub_index(s, pat) {
        Some(_) => true,
        None => false,
    }
}

/// Splits `s` at every occurrence of the non-empty separator `pat`.
/// When the separator never occurs, the result is the single piece `s`.
pub open spec fn split_on(s: Seq<u8>, pat: Seq<u8>) -> Seq<Seq<u8>>
    decreases s.len(),
{
    match find_sub(s, pat) {
        Some(i) => {
            if 0 <= i && 1 <= pat.len() && i + pat.len() <= s.len() {
                seq![s.subrange(0, i)] + split_on(s.subrange(i + pat.len(), s.len() as int), pat)
            } else {
                seq![s]
            }
        },
        None => seq![s],
    }
}

/// Splits a byte slice at every occurrence of the separator.
pub fn split_on_vec(s: &[u8], pat: &[u8]) -> (r: Vec<Vec<u8>>)
    ensures
        r.deep_view() == split_on(s@, pat@),
    decreases s@.len(),
{
    proof {
        lemma_find_sub_bounds(s@, pat@);
    }
    match find_sub_index(s, pat) {
        None => {
            let mut out: Vec<Vec<u8>> = Vec::new();
            out.push(slice_to_vec(s));
            proof {
                assert(out.deep_view() =~~= split_on(s@, pat@));
            }
            out
        },
        Some(i) => {
            let end = s.len();
            let first = slice_to_vec(slice_subrange(s, 0, i));
            let mut out = split_on_vec(slice_subrange(s, i + pat.len(), end), pat);
            out.insert(0, first);
            proof {
                assert(out.deep_view() =~~= split_on(s@, pat@));
            }
            out
        },
    }
}

/// The maximal whitespace-separated words of `s`, in order.
pub open spec fn tokenize(s: Seq<u8>) -> Seq<Seq<u8>>
    decreases s.len(),
{
    if s.len() == 0 {
        Seq::<Seq<u8>>::empty()
    } else if is_ws(s[0]) {
        tokenize(s.drop_first())
    } else {
        let rest = tokenize(s.drop_first());
        if s.len() >= 2 && !is_ws(s[1]) {
            seq![seq![s[0]] + rest[0]] + rest.drop_first()
        } else {
            seq![seq![s[0]]] + rest
        }
    }
}

pub proof fn lemma_tokenize_nonempty(s: Seq<u8>)
    requires
        s.len() >= 1,
        !is_ws(s[0]),
    ensures
        tokenize(s).len() >= 1,
{
}

/// Splits a byte slice into its whitespace-separated words.
pub fn tokenize_vec(s: &[u8]) -> (r: Vec<Vec<u8>>)
    ensures
        r.deep_view() == tokenize(s@),
    decreases s@.len(),
{
    if s.len() == 0 {
        let out: Vec<Vec<u8>> = Vec::new();
        proof {
            assert(out.deep_view() =~~= tokenize(s@));
        }
        out
    } else {
        let rest_slice = slice_subrange(s, 1, s.len());
        proof {
            assert(rest_slice@ =~= s@.drop_first());
        }
        if is_ws_byte(s[0]) {
            tokenize_vec(rest_slice)
        } else {
            let mut out = tokenize_vec(rest_slice);
            if s.len() >= 2 && !is_ws_byte(s[1]) {
                proof {
                    lemma_tokenize_nonempty(s@.drop_first());
                }
                let mut first = out.remove(0);
                first.insert(0, s[0]);
                out.insert(0, first);
                proof {
                    assert(out.deep_view() =~~= tokenize(s@));
                }
                out
            } else {
                let mut first: Vec<u8> = Vec::new();
                first.push(s[0]);
                out.insert(0, first);
                proof {
                    assert(out.deep_view() =~~= tokenize(s@));
                }
                out
            }
        }
    }
}

/// `s` without its leading whitespace.
pub open spec fn trim_front(s: Seq<u8>) -> Seq<u8>
    decreases s.len(),
{
    if s.len() > 0 && is_ws(s[0]) {
        trim_front(s.drop_first())
    } else {
        s
    }
}

/// `s` without its trailing whitespace.
pub open spec fn trim_back(s: Seq<u8>) -> Seq<u8>
    decreases s.len(),
{
    if s.len() > 0 && is_ws(s.last()) {
        trim_back(s.drop_last())
    } else {
        s
    }
}

/// `s` without leading and trailing whitespace.
pub open spec fn trim_seq(s: Seq<u8>) -> Seq<u8> {
    trim_back(trim_front(s))
}

fn trim_front_vec(s: &[u8]) -> (r: Vec<u8>)
    ensures
        r@ == trim_front(s@),
    decreases s@.len(),
{
    if s.len() > 0 && is_ws_byte(s[0]) {
        let rest = slice_subrange(s, 1, s.len());
        proof {
            assert(rest@ =~= s@.drop_first());
        }
        trim_front_vec(rest)
    } else {
        slice_to_vec(s)
    }
}

fn trim_back_vec(s: &[u8]) -> (r: Vec<u8>)
    ensures
        r@ == trim_back(s@),
    decreases s@.len(),
{
    if s.len() > 0 && is_ws_byte(s[s.len() - 1]) {
        let rest = slice_subrange(s, 0, s.len() - 1);
        proof {
            assert(rest@ =~= s@.drop_last());
        }
        trim_back_vec(rest)
    } else {
        slice_to_vec(s)
    }
}

/// Strips leading and trailing ASCII whitespace from a byte slice.
pub fn trim_bytes(s: &[u8]) -> (r: Vec<u8>)
    ensures
        r@ == trim_seq(s@),
{
    let front = trim_front_vec(s);
    trim_back_vec(front.as_slice())
}

} // verus!
