//! Unicode-whitespace tolerance for file names.
//!
//! System-generated names (macOS screenshots, for one) carry whitespace
//! characters that are indistinguishable from an ASCII space on screen, so a
//! remote caller often reproduces them with a plain space. Mapping those
//! characters to a space on both sides lets a near-miss name find the entry
//! it meant.

use vstd::prelude::*;
use crate::chars::{str_to_chars, chars_to_string, chars_eq};

verus! {

/// True for the whitespace characters that are mapped to an ASCII space.
pub open spec fn is_wide_space(c: char) -> bool {
    ||| c == '\u{00A0}'
    ||| c == '\u{202F}'
    ||| c == '\u{2007}'
    ||| c == '\u{2009}'
    ||| c == '\u{200A}'
    ||| c == '\u{2002}'
    ||| c == '\u{2003}'
    ||| c == '\u{205F}'
    ||| c == '\u{3000}'
}

/// One character with wide whitespace mapped to a space.
pub open spec fn normalize_char(c: char) -> char {
    if is_wide_space(c) {
        ' '
    } else {
        c
    }
}

/// A character sequence with wide whitespace mapped to spaces.
pub open spec fn spec_normalize(s: Seq<char>) -> Seq<char> {
    s.map_values(|c: char| normalize_char(c))
}

/// Replace Unicode whitespace characters with an ASCII space.
pub fn normalize_whitespace(s: &str) -> (r: String)
    ensures
        r@ == spec_normalize(s@),
{
    let cs = str_to_chars(s);
    let mut out: Vec<char> = Vec::new();
    let mut i: usize = 0;
    while i < cs.len()
        invariant
            i <= cs@.len(),
            cs@ == s@,
            out@ == spec_normalize(s@.subrange(0, i as int)),
        decreases cs@.len() - i,
    {
        let c = cs[i];
        if c == '\u{00A0}' || c == '\u{202F}' || c == '\u{2007}' || c == '\u{2009}'
            || c == '\u{200A}' || c == '\u{2002}' || c == '\u{2003}' || c == '\u{205F}'
            || c == '\u{3000}' {
            out.push(' ');
        } else {
            out.push(c);
        }
        i = i + 1;
        proof {
            assert(out@ =~= spec_normalize(s@.subrange(0, i as int)));
        }
    }
    proof {
        assert(s@.subrange(0, s@.len() as int) =~= s@);
    }
    chars_to_string(&out)
}

/// The characters of a name with wide whitespace mapped to spaces.
fn normalize_chars(s: &str) -> (r: Vec<char>)
    ensures
        r@ == spec_normalize(s@),
{
    str_to_chars(normalize_whitespace(s).as_str())
}

/// True when `j` is the index of a directory entry whose normalized name
/// matches the normalized target.
pub open spec fn normalized_match(siblings: Seq<String>, target: Seq<char>, j: int) -> bool {
    0 <= j < siblings.len() && spec_normalize(siblings[j]@) == spec_normalize(target)
}

/// Pick the directory entry a near-miss name meant.
///
/// `target_name` is the requested file name, `target_exists` says whether the
/// exact path already exists, and `siblings` are the names in the parent
/// directory. The answer is the index of the unique entry whose name matches
/// the target after whitespace normalization on both sides; when the exact
/// path exists, or no entry matches, or several do, there is no answer.
pub fn resolve_normalized_name(
    target_name: &str,
    target_exists: bool,
    siblings: &Vec<String>,
) -> (r: Option<usize>)
    ensures
        match r {
            Some(j) => {
                &&& !target_exists
                &&& normalized_match(siblings@, target_name@, j as int)
                &&& forall|k: int| normalized_match(siblings@, target_name@, k) ==> k == j
            },
            None => {
                ||| target_exists
                ||| (forall|k: int| !normalized_match(siblings@, target_name@, k))
                ||| exists|k1: int, k2: int|
                    k1 != k2 && normalized_match(siblings@, target_name@, k1)
                        && normalized_match(siblings@, target_name@, k2)
            },
        },
{
    if target_exists {
        return None;
    }
    let want = normalize_chars(target_name);
    let mut found: Option<usize> = None;
    let mut i: usize = 0;
    while i < siblings.len()
        invariant
            i <= siblings@.len(),
            want@ == spec_normalize(target_name@),
            match found {
                Some(j) => {
                    &&& normalized_match(siblings@, target_name@, j as int)
                    &&& (j as int) < i
                    &&& forall|k: int| k < i && normalized_match(siblings@, target_name@, k)
                        ==> k == j
                },
                None => forall|k: int| k < i ==> !normalized_match(siblings@, target_name@, k),
            },
        decreases siblings@.len() - i,
    {
        let name = normalize_chars(siblings[i].as_str());
        if chars_eq(&name, &want) {
            match found {
                Some(j) => {
                    proof {
                        assert(normalized_match(siblings@, target_name@, j as int));
                        assert(normalized_match(siblings@, target_name@, i as int));
                    }
                    return None;
                },
                None => {
                    found = Some(i);
                },
            }
        }
        i = i + 1;
    }
    found
}

} // verus!
