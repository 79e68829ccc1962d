//! Case-sensitive matching of filenames against the recognized image
//! extensions.

use vstd::prelude::*;
use vstd::string::StrSliceExecFns;

verus! {

/// The fixed set of recognized extensions. Matching is case-sensitive and
/// the extension carries no leading dot.
pub open spec fn relevant_extensions() -> Set<Seq<char>> {
    set!["gif"@, "jpeg"@, "jpg"@, "png"@]
}

/// `d` is the position of the final `.` in `name`.
pub open spec fn is_last_dot(name: Seq<char>, d: int) -> bool {
    &&& 0 <= d < name.len()
    &&& name[d] == '.'
    &&& forall|j: int| d < j < name.len() ==> name[j] != '.'
}

/// A name has a relevant extension when it holds a `.` and the text after
/// the final `.` is one of the recognized extensions.
pub open spec fn has_relevant_extension(name: Seq<char>) -> bool {
    exists|d: int|
        is_last_dot(name, d) && relevant_extensions().contains(
            name.subrange(d + 1, name.len() as int),
        )
}

/// Two string slices hold the same characters.
fn str_chars_eq(a: &str, b: &str) -> (r: bool)
    ensures
        r == (a@ == b@),
{
    let a_len: usize = a.unicode_len();
    let b_len: usize = b.unicode_len();
    if a_len != b_len {
        return false;
    }
    let mut i: usize = 0;
    while i < a_len
        invariant
            i <= a_len,
            a_len == a@.len(),
            b_len == b@.len(),
            a_len == b_len,
            forall|j: int| 0 <= j < i ==> a@[j] == b@[j],
        decreases a_len - i,
    {
        if a.get_char(i) != b.get_char(i) {
            return false;
        }
        i += 1;
    }
    proof {
        assert(a@ =~= b@);
    }
    true
}

/// A filename is kept when the text after its final `.`, compared
/// case-sensitively, is one of the recognized extensions.
pub fn is_extension_relevant(name: &str) -> (r: bool)
    ensures
        r == has_relevant_extension(name@),
{
    let len: usize = name.unicode_len();
    let mut i: usize = len;
    while i > 0
        invariant
            i <= len,
            len == name@.len(),
            forall|j: int| i <= j < len ==> name@[j] != '.',
        decreases i,
    {
        if name.get_char(i - 1) == '.' {
            let d: usize = i - 1;
            let ext = name.substring_char(d + 1, len);
            let r = str_chars_eq(ext, "gif") || str_chars_eq(ext, "jpeg") || str_chars_eq(
                ext,
                "jpg",
            ) || str_chars_eq(ext, "png");
            proof {
                let dd = d as int;
                assert(is_last_dot(name@, dd));
                if r {
                    assert(relevant_extensions().contains(
                        name@.subrange(dd + 1, name@.len() as int),
                    ));
                } else {
                    assert forall|d2: int| is_last_dot(name@, d2) implies d2 == dd by {
                        if d2 < dd {
                            assert(name@[dd] == '.');
                        }
                        if d2 > dd {
                            assert(name@[d2] != '.');
                        }
                    }
                    assert(!relevant_extensions().contains(
                        name@.subrange(dd + 1, name@.len() as int),
                    ));
                }
            }
            return r;
        }
        i -= 1;
    }
    proof {
        assert forall|d: int| !is_last_dot(name@, d) by {
            if 0 <= d < name@.len() {
                assert(name@[d] != '.');
            }
        }
    }
    false
}

} // verus!
