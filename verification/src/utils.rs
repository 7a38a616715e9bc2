//! Ordinal case-insensitive string comparison.
//!
//! Two names match when their lowercase-folded character streams are equal.
//! A single character may fold to more than one character, so the comparison
//! works on the concatenated folded streams, never position by position on
//! the original characters.

use vstd::prelude::*;
use vstd::string::StrSliceExecFns;

verus! {

/// What `char::to_lowercase` yields for one character: its Unicode lowercase
/// mapping, a function of the character alone.
pub uninterp spec fn char_lower(c: char) -> Seq<char>;

/// The lowercase-folded stream of a character sequence: each character's
/// lowercase mapping, concatenated in order.
pub open spec fn fold_seq(s: Seq<char>) -> Seq<char>
    decreases s.len(),
{
    if s.len() == 0 {
        Seq::empty()
    } else {
        fold_seq(s.drop_last()) + char_lower(s.last())
    }
}

/// Relies on `char::to_lowercase`: it yields the lowercase mapping of the
/// character, one or more characters determined by the character alone.
#[verifier::external_body]
fn char_to_lowercase(c: char) -> (r: Vec<char>)
    ensures
        r@ == char_lower(c),
{
    c.to_lowercase().collect()
}

/// The lowercase-folded stream of a string.
fn fold_str(s: &str) -> (r: Vec<char>)
    ensures
        r@ == fold_seq(s@),
{
    let n = s.unicode_len();
    let mut out: Vec<char> = Vec::new();
    let mut i: usize = 0;
    while i < n
        invariant
            n == s@.len(),
            0 <= i <= n,
            out@ == fold_seq(s@.take(i as int)),
        decreases n - i,
    {
        let c = s.get_char(i);
        let mut low = char_to_lowercase(c);
        out.append(&mut low);
        proof {
            assert(s@.take(i + 1).drop_last() =~= s@.take(i as int));
            assert(s@.take(i + 1).last() == s@[i as int]);
            assert(out@ =~= fold_seq(s@.take(i + 1)));
        }
        i = i + 1;
    }
    proof {
        assert(s@.take(i as int) =~= s@);
    }
    out
}

/// Element-by-element equality of two character vectors.
fn char_vec_eq(a: &Vec<char>, b: &Vec<char>) -> (r: bool)
    ensures
        r == (a@ == b@),
{
    if a.len() != b.len() {
        return false;
    }
    let mut i: usize = 0;
    while i < a.len()
        invariant
            a@.len() == b@.len(),
            0 <= i <= a@.len(),
            forall|j: int| 0 <= j < i ==> a@[j] == b@[j],
        decreases a@.len() - i,
    {
        if a[i] != b[i] {
            return false;
        }
        i = i + 1;
    }
    proof {
        assert(a@ =~= b@);
    }
    true
}

/// Whether two names are the same under ordinal case-insensitive comparison:
/// equal lowercase-folded streams, compared stream against stream. A name
/// whose folded stream is longer or shorter than the other's never matches,
/// whatever its characters.
pub fn case_insensitive_match(left: &str, right: &str) -> (r: bool)
    ensures
        r == (fold_seq(left@) == fold_seq(right@)),
{
    let a = fold_str(left);
    let b = fold_str(right);
    char_vec_eq(&a, &b)
}

} // verus!
