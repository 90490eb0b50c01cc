//! Splitting a text at its first `#`.
use vstd::prelude::*;
use vstd::string::*;

verus! {

/// Whether `i` is the position of the first `#` in `s`.
pub open spec fn is_first_hash(s: Seq<char>, i: int) -> bool {
    &&& 0 <= i < s.len()
    &&& s[i] == '#'
    &&& forall|k: int| 0 <= k < i ==> s[k] != '#'
}

/// Whether `s` holds no `#`.
pub open spec fn hash_free(s: Seq<char>) -> bool {
    forall|k: int| 0 <= k < s.len() ==> s[k] != '#'
}

/// The position of the first `#` in `text`, if any.
fn first_hash(text: &str) -> (r: Option<usize>)
    ensures
        r is None ==> hash_free(text@),
        r is Some ==> is_first_hash(text@, r->0 as int),
{
    let n = text.unicode_len();
    let mut i: usize = 0;
    while i < n
        invariant
            n == text@.len(),
            i <= n,
            forall|k: int| 0 <= k < i ==> text@[k] != '#',
        decreases n - i,
    {
        if text.get_char(i) == '#' {
            return Some(i);
        }
        i = i + 1;
    }
    None
}

/// The part of `text` before its first `#`; empty where there is none.
pub fn before_the_hash<'a>(text: &'a str) -> (r: &'a str)
    ensures
        hash_free(text@) ==> r@ == Seq::<char>::empty(),
        forall|i: int| is_first_hash(text@, i) ==> r@ == text@.subrange(0, i),
{
    match first_hash(text) {
        Some(index) => text.substring_char(0, index),
        None => {
            proof {
                reveal_strlit("");
            }
            ""
        },
    }
}

/// The part of `text` after its first `#`; empty where there is none.
pub fn after_the_hash<'a>(text: &'a str) -> (r: &'a str)
    ensures
        hash_free(text@) ==> r@ == Seq::<char>::empty(),
        forall|i: int| is_first_hash(text@, i) ==> r@ == text@.subrange(i + 1, text@.len() as int),
{
    match first_hash(text) {
        Some(index) => {
            let n = text.unicode_len();
            text.substring_char(index + 1, n)
        },
        None => {
            proof {
                reveal_strlit("");
            }
            ""
        },
    }
}

} // verus!
