//! Small verified string helpers: character-wise equality and the file
//! extension of a path written as text.

use vstd::prelude::*;

verus! {

/// Character-wise equality of two string slices.
pub fn str_eq(a: &str, b: &str) -> (r: bool)
    ensures
        r == (a@ == b@),
{
    let alen = a.unicode_len();
    let blen = b.unicode_len();
    if alen != blen {
        return false;
    }
    let mut i: usize = 0;
    while i < alen
        invariant
            i <= alen,
            alen == a@.len(),
            blen == b@.len(),
            alen == blen,
            forall|j: int| 0 <= j < i ==> a@[j] == b@[j],
        decreases alen - i,
    {
        if a.get_char(i) != b.get_char(i) {
            return false;
        }
        i += 1;
    }
    proof {
        assert(a@ =~= b@);
    }
    true
}

/// Scan of a path's characters from position `i` backwards, looking for the
/// last `'.'` of the final path segment.  The extension is what follows that
/// dot, provided the dot does not open the segment; a `'/'` or the start of
/// the path ends the scan with no extension found.
pub open spec fn ext_from(p: Seq<char>, i: int) -> Option<Seq<char>>
    decreases i,
{
    if i <= 0 {
        None
    } else if p[i - 1] == '/' {
        None
    } else if p[i - 1] == '.' {
        if i - 1 >= 1 && p[i - 2] != '/' {
            Some(p.subrange(i, p.len() as int))
        } else {
            None
        }
    } else {
        ext_from(p, i - 1)
    }
}

/// The extension of a path: the characters after the last `'.'` of its final
/// segment, when that dot neither opens the segment nor is missing.
pub open spec fn spec_extension(p: Seq<char>) -> Option<Seq<char>> {
    ext_from(p, p.len() as int)
}

/// Extracts the extension of `path`, as [`spec_extension`] describes it.
pub fn extension_of(path: &str) -> (r: Option<String>)
    ensures
        r is Some <==> spec_extension(path@) is Some,
        r matches Some(e) ==> spec_extension(path@) == Some(e@),
{
    let len = path.unicode_len();
    let mut i: usize = len;
    while i > 0
        invariant
            i <= len,
            len == path@.len(),
            ext_from(path@, len as int) == ext_from(path@, i as int),
        decreases i,
    {
        let c = path.get_char(i - 1);
        if c == '/' {
            return None;
        }
        if c == '.' {
            if i >= 2 && path.get_char(i - 2) != '/' {
                let ext = path.substring_char(i, len);
                return Some(ext.to_owned());
            }
            return None;
        }
        i -= 1;
    }
    None
}

} // verus!
