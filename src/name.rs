//! The package-name grammar: a leading ASCII letter or digit, then ASCII
//! letters, digits, `_` or `-`.
use vstd::prelude::*;
use vstd::std_specs::iter::IteratorSpec;

verus! {

broadcast use vstd::string::axiom_spec_iter, vstd::string::next_postcondition;

/// An ASCII letter or digit.
pub open spec fn is_ascii_alnum(c: char) -> bool {
    ('a' <= c && c <= 'z') || ('A' <= c && c <= 'Z') || ('0' <= c && c <= '9')
}

/// A character allowed after the first one of a name.
pub open spec fn is_name_tail_char(c: char) -> bool {
    is_ascii_alnum(c) || c == '_' || c == '-'
}

/// A well-formed package name.
pub open spec fn is_valid_name(s: Seq<char>) -> bool {
    &&& s.len() > 0
    &&& is_ascii_alnum(s[0])
    &&& forall|i: int| 1 <= i < s.len() ==> is_name_tail_char(#[trigger] s[i])
}

fn ascii_alnum(c: char) -> (r: bool)
    ensures
        r == is_ascii_alnum(c),
{
    ('a' <= c && c <= 'z') || ('A' <= c && c <= 'Z') || ('0' <= c && c <= '9')
}

/// Whether `name` may be handed to the installer: nothing that could read as
/// a flag, a path fragment or whitespace gets through.
pub fn valid_crate_name(name: &str) -> (r: bool)
    ensures
        r == is_valid_name(name@),
{
    let mut chars = name.chars();
    let first = chars.next();
    match first {
        None => false,
        Some(c) => {
            if !ascii_alnum(c) {
                return false;
            }
            let ghost mut k: int = 1;
            loop
                invariant
                    1 <= k <= name@.len(),
                    is_ascii_alnum(name@[0]),
                    chars.obeys_prophetic_iter_laws(),
                    chars.remaining() == name@.subrange(k, name@.len() as int),
                    forall|j: int| 1 <= j < k ==> is_name_tail_char(#[trigger] name@[j]),
                decreases name@.len() - k,
            {
                match chars.next() {
                    None => {
                        return true;
                    },
                    Some(c) => {
                        if !(ascii_alnum(c) || c == '_' || c == '-') {
                            return false;
                        }
                        proof {
                            k = k + 1;
                        }
                    },
                }
            }
        },
    }
}

} // verus!
