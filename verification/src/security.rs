//! Path safety: the scope containment check and the sensitive-file deny list.
//!
//! A path is modelled as its separator-split components: the segments between
//! `/` characters, dropping empty segments and `.`. The deny list speaks of
//! those components and of the last one (the file name); the scope check asks
//! whether one path's components are a prefix of another's. Resolving
//! symlinks and `..` is filesystem work and happens outside this crate; the
//! functions here take the resolved (canonical) texts and make every decision
//! about them.
//!
//! The model takes `/` as the one separator — the form canonical paths have
//! on Unix-family systems. On a system whose canonical paths are written with
//! another separator, the caller must hand in texts of this form.

use vstd::prelude::*;
use crate::chars::{
    lower_of, lower_vec, starts_with, ends_with, starts_with_str, ends_with_str, chars_eq,
    chars_eq_str, chars_to_string, push_str_chars, views, spec_split_on, split_on,
};

verus! {

/// The raw segments of `s` between `/` separators (empty segments kept).
pub open spec fn spec_split(s: Seq<char>) -> Seq<Seq<char>> {
    spec_split_on(s, '/')
}

/// True for segments that count as path components: non-empty and not `.`.
pub open spec fn keep_comp(c: Seq<char>) -> bool {
    c.len() > 0 && c != "."@
}

/// The segments of `parts` that count as components, in order.
pub open spec fn filter_comps(parts: Seq<Seq<char>>) -> Seq<Seq<char>>
    decreases parts.len(),
{
    if parts.len() == 0 {
        Seq::empty()
    } else if keep_comp(parts.last()) {
        filter_comps(parts.drop_last()).push(parts.last())
    } else {
        filter_comps(parts.drop_last())
    }
}

/// The components of a path text: its non-empty, non-`.` segments.
pub open spec fn path_components(s: Seq<char>) -> Seq<Seq<char>> {
    filter_comps(spec_split(s))
}

/// The components of a path text, as vectors.
pub fn components_of(path: &str) -> (r: Vec<Vec<char>>)
    ensures
        views(r@) == path_components(path@),
{
    let parts = split_on(path, '/');
    let mut out: Vec<Vec<char>> = Vec::new();
    let mut i: usize = 0;
    while i < parts.len()
        invariant
            i <= parts@.len(),
            views(parts@) == spec_split(path@),
            views(out@) =~= filter_comps(views(parts@).subrange(0, i as int)),
        decreases parts@.len() - i,
    {
        proof {
            let pre = views(parts@).subrange(0, i as int);
            let post = views(parts@).subrange(0, i as int + 1);
            assert(post.drop_last() =~= pre);
            assert(post.last() == views(parts@)[i as int]);
        }
        let keep = parts[i].len() > 0 && !chars_eq_str(&parts[i], ".");
        let ghost opre = out@;
        if keep {
            let part = parts[i].clone();
            proof {
                assert(part@ == views(parts@)[i as int]);
            }
            out.push(part);
            proof {
                assert(views(out@) =~= views(opre).push(views(parts@)[i as int]));
            }
        }
        i = i + 1;
        proof {
            assert(views(out@) =~= filter_comps(views(parts@).subrange(0, i as int)));
        }
    }
    proof {
        assert(views(parts@).subrange(0, views(parts@).len() as int) =~= views(parts@));
    }
    out
}

/// True for a component name that is always blocked as a directory.
pub open spec fn denied_dir(c: Seq<char>) -> bool {
    ||| c == ".git"@
    ||| c == ".ssh"@
    ||| c == ".aws"@
    ||| c == ".gnupg"@
    ||| c == "node_modules"@
    ||| c == "__pycache__"@
    ||| c == ".venv"@
    ||| c == ".terraform"@
}

/// True when the lowercased file name is one of the always-blocked names.
pub open spec fn denied_exact(l: Seq<char>) -> bool {
    ||| l == ".gitconfig"@
    ||| l == ".npmrc"@
    ||| l == ".pypirc"@
    ||| l == "credentials.json"@
    ||| l == "service-account.json"@
}

/// True when the lowercased file name equals a blocked stem or begins with
/// the stem followed by a dot.
pub open spec fn denied_prefix(l: Seq<char>) -> bool {
    ||| l == ".env"@ || starts_with(l, ".env."@)
    ||| l == "id_rsa"@ || starts_with(l, "id_rsa."@)
    ||| l == "id_ed25519"@ || starts_with(l, "id_ed25519."@)
    ||| l == "id_ecdsa"@ || starts_with(l, "id_ecdsa."@)
    ||| l == "id_dsa"@ || starts_with(l, "id_dsa."@)
}

/// True when the lowercased file name carries a blocked extension.
pub open spec fn denied_ext(l: Seq<char>) -> bool {
    ||| ends_with(l, ".key"@)
    ||| ends_with(l, ".pem"@)
    ||| ends_with(l, ".p12"@)
    ||| ends_with(l, ".pfx"@)
    ||| ends_with(l, ".jks"@)
}

/// True when a file of this name must never be exposed.
pub open spec fn denied_file_name(name: Seq<char>) -> bool {
    denied_exact(lower_of(name)) || denied_prefix(lower_of(name)) || denied_ext(lower_of(name))
}

/// True when the path hits the deny list: some component is a blocked
/// directory name (compared case-sensitively), or the file name — the last
/// component, unless it is `..` — is blocked (compared lowercased).
pub open spec fn spec_is_denied(path: Seq<char>) -> bool {
    let comps = path_components(path);
    ||| exists|i: int| 0 <= i < comps.len() && denied_dir(#[trigger] comps[i])
    ||| (comps.len() > 0 && comps.last() != ".."@ && denied_file_name(comps.last()))
}

/// Check whether a path must be blocked from access.
///
/// `list_files` and `search_files` silently filter denied entries out;
/// `read_file` and `file_info` answer them with an error.
pub fn is_denied(path: &str) -> (r: bool)
    ensures
        r == spec_is_denied(path@),
{
    let comps = components_of(path);
    let mut i: usize = 0;
    while i < comps.len()
        invariant
            i <= comps@.len(),
            views(comps@) == path_components(path@),
            forall|j: int| 0 <= j < i ==> !denied_dir(#[trigger] views(comps@)[j]),
        decreases comps@.len() - i,
    {
        let c = &comps[i];
        proof {
            assert(c@ == views(comps@)[i as int]);
        }
        if chars_eq_str(c, ".git") || chars_eq_str(c, ".ssh") || chars_eq_str(c, ".aws")
            || chars_eq_str(c, ".gnupg") || chars_eq_str(c, "node_modules")
            || chars_eq_str(c, "__pycache__") || chars_eq_str(c, ".venv")
            || chars_eq_str(c, ".terraform") {
            return true;
        }
        i = i + 1;
    }
    if comps.len() == 0 {
        return false;
    }
    let name = &comps[comps.len() - 1];
    proof {
        assert(name@ == views(comps@)[comps@.len() - 1]);
        assert(name@ == path_components(path@).last());
    }
    if chars_eq_str(name, "..") {
        return false;
    }
    let l = lower_vec(name);
    if chars_eq_str(&l, ".gitconfig") || chars_eq_str(&l, ".npmrc") || chars_eq_str(&l, ".pypirc")
        || chars_eq_str(&l, "credentials.json") || chars_eq_str(&l, "service-account.json") {
        return true;
    }
    if chars_eq_str(&l, ".env") || starts_with_str(&l, ".env.")
        || chars_eq_str(&l, "id_rsa") || starts_with_str(&l, "id_rsa.")
        || chars_eq_str(&l, "id_ed25519") || starts_with_str(&l, "id_ed25519.")
        || chars_eq_str(&l, "id_ecdsa") || starts_with_str(&l, "id_ecdsa.")
        || chars_eq_str(&l, "id_dsa") || starts_with_str(&l, "id_dsa.") {
        return true;
    }
    if ends_with_str(&l, ".key") || ends_with_str(&l, ".pem") || ends_with_str(&l, ".p12")
        || ends_with_str(&l, ".pfx") || ends_with_str(&l, ".jks") {
        return true;
    }
    false
}

/// True when `s` is an absolute path text.
pub open spec fn is_abs(s: Seq<char>) -> bool {
    s.len() > 0 && s[0] == '/'
}

/// True when `prefix` contains `path`: both are equally rooted and the
/// components of `prefix` lead the components of `path`. This is a
/// component-wise prefix, never a text prefix.
pub open spec fn spec_path_prefix(prefix: Seq<char>, path: Seq<char>) -> bool {
    let pc = path_components(prefix);
    let qc = path_components(path);
    is_abs(prefix) == is_abs(path) && pc.len() <= qc.len() && pc == qc.subrange(
        0,
        pc.len() as int,
    )
}

/// True when the path `path` lies under the folder `prefix`.
pub fn is_path_prefix(prefix: &str, path: &str) -> (r: bool)
    ensures
        r == spec_path_prefix(prefix@, path@),
{
    let pc = components_of(prefix);
    let qc = components_of(path);
    let pre_abs = prefix.unicode_len() > 0 && prefix.get_char(0) == '/';
    let path_abs = path.unicode_len() > 0 && path.get_char(0) == '/';
    if pre_abs != path_abs {
        return false;
    }
    if qc.len() < pc.len() {
        return false;
    }
    let mut i: usize = 0;
    while i < pc.len()
        invariant
            i <= pc@.len(),
            views(pc@) == path_components(prefix@),
            views(qc@) == path_components(path@),
            pc@.len() <= qc@.len(),
            forall|j: int| 0 <= j < i ==> views(pc@)[j] == views(qc@)[j],
        decreases pc@.len() - i,
    {
        if !chars_eq(&pc[i], &qc[i]) {
            proof {
                assert(views(pc@)[i as int] != views(qc@)[i as int]);
                assert(path_components(path@).subrange(
                    0,
                    path_components(prefix@).len() as int,
                )[i as int] == views(qc@)[i as int]);
            }
            return false;
        }
        i = i + 1;
    }
    proof {
        assert(views(pc@) =~= views(qc@).subrange(0, views(pc@).len() as int));
    }
    true
}

/// Why a path was refused.
pub enum SecurityError {
    /// The path lies outside every scoped folder; holds the canonical path,
    /// or the fixed text when no folder is configured.
    OutOfScope(String),
    /// The path hits the deny list; holds the path as requested.
    DeniedFile(String),
    /// The path could not be resolved; holds the request and the resolver's text.
    ResolutionFailed(String),
}

/// The message text of a security error.
pub open spec fn spec_message(e: SecurityError) -> Seq<char> {
    match e {
        SecurityError::OutOfScope(p) => "Path is outside scoped folders: "@ + p@,
        SecurityError::DeniedFile(p) => "Access denied — sensitive file: "@ + p@,
        SecurityError::ResolutionFailed(m) => "Path resolution failed: "@ + m@,
    }
}

impl SecurityError {
    /// How the error reads when reported to the server.
    pub fn message(&self) -> (r: String)
        ensures
            r@ == spec_message(*self),
    {
        let mut out: Vec<char> = Vec::new();
        match self {
            SecurityError::OutOfScope(p) => {
                push_str_chars(&mut out, "Path is outside scoped folders: ");
                push_str_chars(&mut out, p.as_str());
            },
            SecurityError::DeniedFile(p) => {
                push_str_chars(&mut out, "Access denied — sensitive file: ");
                push_str_chars(&mut out, p.as_str());
            },
            SecurityError::ResolutionFailed(m) => {
                push_str_chars(&mut out, "Path resolution failed: ");
                push_str_chars(&mut out, m.as_str());
            },
        }
        chars_to_string(&out)
    }
}

/// True when some scope entry resolved and contains `path`.
pub open spec fn spec_in_scope(path: Seq<char>, scope_canonical: Seq<Option<String>>) -> bool {
    exists|i: int|
        0 <= i < scope_canonical.len() && (#[trigger] scope_canonical[i]) is Some
            && spec_path_prefix(scope_canonical[i]->0@, path)
}

/// Decide whether a request may proceed, given the canonicalization outcomes.
///
/// `requested` is the path as the server sent it. `canonical` is the result
/// of resolving it: the canonical text, or the resolver's error text.
/// `scope_canonical` holds, for each configured scoped folder in order, its
/// canonical text, or `None` where the folder did not resolve.
///
/// The request is allowed exactly when some folder resolved and contains the
/// canonical path; the `Ok` value is that canonical path. With no folders
/// configured the answer is `OutOfScope` with a fixed text; an unresolved
/// path is `ResolutionFailed` carrying `requested` and the resolver's text.
pub fn validate_path(
    requested: &str,
    canonical: &Result<String, String>,
    scope_canonical: &Vec<Option<String>>,
) -> (r: Result<String, SecurityError>)
    ensures
        match r {
            Ok(c) => {
                &&& scope_canonical@.len() > 0
                &&& canonical is Ok
                &&& c@ == canonical->Ok_0@
                &&& spec_in_scope(c@, scope_canonical@)
            },
            Err(e) => match e {
                SecurityError::OutOfScope(m) => {
                    ||| (scope_canonical@.len() == 0 && m@ == "No scoped folders configured"@)
                    ||| (scope_canonical@.len() > 0 && canonical is Ok && m@ == canonical->Ok_0@
                        && !spec_in_scope(canonical->Ok_0@, scope_canonical@))
                },
                SecurityError::ResolutionFailed(m) => {
                    &&& scope_canonical@.len() > 0
                    &&& canonical is Err
                    &&& m@ == requested@ + ": "@ + canonical->Err_0@
                },
                SecurityError::DeniedFile(_) => false,
            },
        },
{
    if scope_canonical.len() == 0 {
        return Err(SecurityError::OutOfScope(String::from_str("No scoped folders configured")));
    }
    let canon: &String = match canonical {
        Ok(c) => c,
        Err(e) => {
            let mut out: Vec<char> = Vec::new();
            push_str_chars(&mut out, requested);
            push_str_chars(&mut out, ": ");
            push_str_chars(&mut out, e.as_str());
            return Err(SecurityError::ResolutionFailed(chars_to_string(&out)));
        },
    };
    let mut i: usize = 0;
    while i < scope_canonical.len()
        invariant
            i <= scope_canonical@.len(),
            canonical is Ok && canon@ == canonical->Ok_0@,
            forall|j: int|
                0 <= j < i ==> ((#[trigger] scope_canonical@[j]) is Some
                    ==> !spec_path_prefix(scope_canonical@[j]->0@, canon@)),
        decreases scope_canonical@.len() - i,
    {
        match &scope_canonical[i] {
            Some(folder) => {
                if is_path_prefix(folder.as_str(), canon.as_str()) {
                    return Ok(canon.clone());
                }
            },
            None => {},
        }
        i = i + 1;
    }
    Err(SecurityError::OutOfScope(canon.clone()))
}

} // verus!
