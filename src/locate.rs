//! Finding the installed executable: the first directory entry whose file
//! stem is exactly the package name.
use vstd::prelude::*;
use vstd::std_specs::iter::IteratorSpec;

verus! {

broadcast use vstd::string::axiom_spec_iter, vstd::string::next_postcondition;

/// Index of the last `.` among the first `n` characters of `s`, or -1.
pub open spec fn last_dot(s: Seq<char>, n: int) -> int
    decreases n,
{
    if n <= 0 {
        -1
    } else if s[n - 1] == '.' {
        n - 1
    } else {
        last_dot(s, n - 1)
    }
}

/// The file stem of a file name: the name without its final `.suffix`.
/// A name without a dot, or whose only dot leads it, is its own stem, and
/// so is `..`.
pub open spec fn stem_of(s: Seq<char>) -> Seq<char> {
    let p = last_dot(s, s.len() as int);
    if s == seq!['.', '.'] || p <= 0 {
        s
    } else {
        s.subrange(0, p)
    }
}

proof fn lemma_last_dot_range(s: Seq<char>, n: int)
    requires
        n <= s.len(),
    ensures
        -1 <= last_dot(s, n) < if n < 0 { 0 } else { n },
        last_dot(s, n) >= 0 ==> s[last_dot(s, n)] == '.',
        forall|q: int| last_dot(s, n) < q < n ==> s[q] != '.',
    decreases n,
{
    if n > 0 && s[n - 1] != '.' {
        lemma_last_dot_range(s, n - 1);
    }
}

fn chars_of(s: &str) -> (r: Vec<char>)
    ensures
        r@ == s@,
{
    let mut chars = s.chars();
    let mut r: Vec<char> = Vec::new();
    loop
        invariant
            chars.obeys_prophetic_iter_laws(),
            r@ + chars.remaining() == s@,
        decreases s@.len() - r@.len(),
    {
        match chars.next() {
            None => {
                return r;
            },
            Some(c) => {
                r.push(c);
                assert(r@ + chars.remaining() =~= s@);
            },
        }
    }
}

/// Whether the file stem of `file_name` is exactly `name`.
pub fn stem_equals(file_name: &str, name: &str) -> (r: bool)
    ensures
        r == (stem_of(file_name@) == name@),
{
    let f = chars_of(file_name);
    let n = chars_of(name);
    let is_dot_dot = f.len() == 2 && f[0] == '.' && f[1] == '.';
    // scan back for the last dot
    let mut i: usize = f.len();
    while i > 0 && f[i - 1] != '.'
        invariant
            i <= f@.len(),
            last_dot(f@, f@.len() as int) == last_dot(f@, i as int),
        decreases i,
    {
        i = i - 1;
    }
    let stem_len: usize = if is_dot_dot || i <= 1 {
        f.len()
    } else {
        i - 1
    };
    proof {
        assert(is_dot_dot == (f@ == seq!['.', '.'])) by {
            if f@ == seq!['.', '.'] {
                assert(f@[0] == '.' && f@[1] == '.');
            }
            if is_dot_dot {
                assert(f@ =~= seq!['.', '.']);
            }
        }
        lemma_last_dot_range(f@, f@.len() as int);
        assert(stem_of(f@) =~= f@.subrange(0, stem_len as int));
    }
    if stem_len != n.len() {
        return false;
    }
    let mut j: usize = 0;
    while j < stem_len
        invariant
            f@ == file_name@,
            n@ == name@,
            stem_len == n@.len(),
            stem_len <= f@.len(),
            stem_of(f@) == f@.subrange(0, stem_len as int),
            j <= stem_len,
            forall|q: int| 0 <= q < j ==> f@[q] == n@[q],
        decreases stem_len - j,
    {
        if f[j] != n[j] {
            assert(stem_of(f@)[j as int] != n@[j as int]);
            return false;
        }
        j = j + 1;
    }
    assert(stem_of(f@) =~= n@);
    true
}

/// The position of the first entry of `file_names` (in the order given)
/// whose file stem is exactly `name`, or `None` where no entry has that stem.
pub fn find_first_executable(name: &str, file_names: &Vec<String>) -> (r: Option<usize>)
    ensures
        match r {
            Some(i) => {
                &&& i < file_names@.len()
                &&& stem_of(file_names@[i as int]@) == name@
                &&& forall|j: int| 0 <= j < i ==> stem_of(#[trigger] file_names@[j]@) != name@
            },
            None => forall|j: int|
                0 <= j < file_names@.len() ==> stem_of(#[trigger] file_names@[j]@) != name@,
        },
{
    let mut i: usize = 0;
    while i < file_names.len()
        invariant
            i <= file_names@.len(),
            forall|j: int| 0 <= j < i ==> stem_of(#[trigger] file_names@[j]@) != name@,
        decreases file_names@.len() - i,
    {
        if stem_equals(file_names[i].as_str(), name) {
            return Some(i);
        }
        i = i + 1;
    }
    None
}

} // verus!
