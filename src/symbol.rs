//! Reduction of a symbol path to the function it names, by dropping a trailing
//! alphanumeric disambiguation suffix (`outer::inner::function::h0123abcd`).
use vstd::prelude::*;
use vstd::string::*;

verus! {

/// An ASCII letter or digit.
pub open spec fn is_alnum(c: char) -> bool {
    ('0' <= c && c <= '9') || ('a' <= c && c <= 'z') || ('A' <= c && c <= 'Z')
}

/// `s` reads as a path that does not end in `:`, then `::` at `k`, then a non-empty
/// run of letters and digits up to its end.
pub open spec fn splits_at(s: Seq<char>, k: int) -> bool {
    &&& 1 <= k
    &&& k + 2 < s.len()
    &&& s[k - 1] != ':'
    &&& s[k] == ':'
    &&& s[k + 1] == ':'
    &&& forall|i: int| k + 2 <= i < s.len() ==> is_alnum(#[trigger] s[i])
}

/// The path in front of the suffix where `s` has one, else `s` itself.
pub open spec fn reduced(s: Seq<char>) -> Seq<char> {
    if exists|k: int| splits_at(s, k) {
        s.subrange(0, choose|k: int| splits_at(s, k))
    } else {
        s
    }
}

/// A symbol splits at one place at most.
pub proof fn lemma_split_unique(s: Seq<char>, k1: int, k2: int)
    requires
        splits_at(s, k1),
        splits_at(s, k2),
    ensures
        k1 == k2,
{
    if k1 < k2 {
        if k1 + 2 <= k2 {
            assert(is_alnum(s[k2]));
        }
    } else if k2 < k1 {
        if k2 + 2 <= k1 {
            assert(is_alnum(s[k1]));
        }
    }
}

fn char_is_alnum(c: char) -> (r: bool)
    ensures
        r == is_alnum(c),
{
    ('0' <= c && c <= '9') || ('a' <= c && c <= 'z') || ('A' <= c && c <= 'Z')
}

/// Drops the disambiguation suffix of a symbol path; a symbol without one
/// (a closure's label, a bare name) comes back unchanged.
pub fn reduce(symbol: &str) -> (r: String)
    ensures
        r@ == reduced(symbol@),
{
    let n = symbol.unicode_len();
    let mut j: usize = n;
    while j > 0 && char_is_alnum(symbol.get_char(j - 1))
        invariant
            j <= n,
            n == symbol@.len(),
            forall|i: int| j <= i < n ==> is_alnum(#[trigger] symbol@[i]),
        decreases j,
    {
        j = j - 1;
    }
    let found = j < n && j >= 3 && symbol.get_char(j - 1) == ':' && symbol.get_char(j - 2) == ':'
        && symbol.get_char(j - 3) != ':';
    if found {
        proof {
            let k = (j - 2) as int;
            assert(splits_at(symbol@, k));
            lemma_split_unique(symbol@, k, choose|k: int| splits_at(symbol@, k));
        }
        symbol.substring_char(0, j - 2).to_string()
    } else {
        proof {
            assert forall|k: int| !splits_at(symbol@, k) by {
                if splits_at(symbol@, k) {
                    assert(!is_alnum(symbol@[k + 1]));
                    if j > k + 2 {
                        assert(!is_alnum(symbol@[j - 1]));
                    }
                    assert(j == k + 2);
                }
            }
        }
        symbol.to_string()
    }
}

} // verus!
