//! The four read-only filesystem tools.
//!
//! Each tool runs in two halves. The filesystem half — canonicalizing,
//! walking, stating, reading — happens outside this crate and hands in plain
//! values: canonical texts, directory entries, sizes, bytes, lines. The
//! deciding half lives here: which entries are kept, which requests are
//! refused and with which words, and the exact JSON text of every answer.

use vstd::prelude::*;
use vstd::string::StringSliceAdditionalSpecFns;
use base64::Engine;
use crate::chars::{
    chars_to_string, push_str_chars, str_to_chars, lower_vec, lower_of, contains_chars, contains_seq,
    chars_eq_str, str_eq, push_all,
};
use crate::json::{
    JVal, spec_quoted, spec_u64_chars, spec_obj_get, push_quoted, u64_to_chars,
};
use crate::security::{
    validate_path, is_denied, spec_is_denied, spec_in_scope, path_components,
};

verus! {

/// What kind of filesystem object an entry is.
pub enum EntryKind {
    File,
    Directory,
    Symlink,
}

/// The `type` text of an entry, quotes included.
pub open spec fn spec_kind_text(k: EntryKind) -> Seq<char> {
    match k {
        EntryKind::File => "\"file\""@,
        EntryKind::Directory => "\"directory\""@,
        EntryKind::Symlink => "\"symlink\""@,
    }
}

/// A directory entry as the filesystem walk reports it.
pub struct EntryInfo {
    /// The entry's file name.
    pub name: String,
    /// The entry's full path text.
    pub path: String,
    /// Size in bytes.
    pub size: u64,
    /// File, directory or symlink.
    pub kind: EntryKind,
    /// Modification time as RFC-3339 text, when the filesystem reports one.
    pub modified_at: Option<String>,
}

/// Parameters of a `list_files` request.
pub struct ListFilesParams {
    pub path: String,
    pub recursive: bool,
    pub pattern: Option<String>,
}

/// Parameters of a `read_file` request.
pub struct ReadFileParams {
    pub path: String,
    pub max_lines: Option<u64>,
}

/// Parameters of a `search_files` request.
pub struct SearchFilesParams {
    pub query: String,
    pub path: Option<String>,
    pub search_content: bool,
    pub file_types: Option<Vec<String>>,
    pub limit: u64,
}

/// Parameters of a `file_info` request.
pub struct FileInfoParams {
    pub path: String,
}

/// A tool request with its parameters read and defaulted.
pub enum ToolRequest {
    ListFiles(ListFilesParams),
    SearchFiles(SearchFilesParams),
    ReadFile(ReadFileParams),
    FileInfo(FileInfoParams),
}

/// The string member `key` of `params`, when present with that shape.
pub open spec fn spec_str_param(params: JVal, key: Seq<char>) -> Option<String> {
    match spec_obj_get(params, key) {
        Some(x) => if x is Str {
            Some(x->Str_0)
        } else {
            None
        },
        None => None,
    }
}

/// The boolean member `key` of `params`, or `default`.
pub open spec fn spec_bool_param(params: JVal, key: Seq<char>, default: bool) -> bool {
    match spec_obj_get(params, key) {
        Some(x) => if x is Bool {
            x->Bool_0
        } else {
            default
        },
        None => default,
    }
}

/// The unsigned member `key` of `params`, when present with that shape.
pub open spec fn spec_u64_param(params: JVal, key: Seq<char>) -> Option<u64> {
    match spec_obj_get(params, key) {
        Some(x) => if x is UInt {
            Some(x->UInt_0)
        } else {
            None
        },
        None => None,
    }
}

/// True when every element of `items` is a string.
pub open spec fn all_strings(items: Seq<JVal>) -> bool {
    forall|i: int| 0 <= i < items.len() ==> (#[trigger] items[i]) is Str
}

/// The string-array member `key` of `params`, when present and made of
/// strings throughout; a list with any other element has no value here.
pub open spec fn spec_str_list_param(params: JVal, key: Seq<char>) -> Option<Seq<String>> {
    match spec_obj_get(params, key) {
        Some(x) => if x is Arr && all_strings(x->Arr_0@) {
            Some(x->Arr_0@.map_values(|e: JVal| e->Str_0))
        } else {
            None
        },
        None => None,
    }
}

/// Reads the string member `key`, cloning it out.
fn get_str_param(params: &JVal, key: &str) -> (r: Option<String>)
    ensures
        r == spec_str_param(*params, key@),
{
    match params.get(key) {
        Some(x) => match x.as_str() {
            Some(s) => Some(s.clone()),
            None => None,
        },
        None => None,
    }
}

/// Reads the boolean member `key`, or `default`.
fn get_bool_param(params: &JVal, key: &str, default: bool) -> (r: bool)
    ensures
        r == spec_bool_param(*params, key@, default),
{
    match params.get(key) {
        Some(x) => match x.as_bool() {
            Some(b) => b,
            None => default,
        },
        None => default,
    }
}

/// Reads the unsigned member `key`.
fn get_u64_param(params: &JVal, key: &str) -> (r: Option<u64>)
    ensures
        r == spec_u64_param(*params, key@),
{
    match params.get(key) {
        Some(x) => match x.as_u64() {
            Some(n) => Some(n),
            None => None,
        },
        None => None,
    }
}

/// Reads the string-array member `key`, cloning the strings out.
fn get_str_list_param(params: &JVal, key: &str) -> (r: Option<Vec<String>>)
    ensures
        match r {
            Some(v) => {
                &&& spec_str_list_param(*params, key@) is Some
                &&& v@ == spec_str_list_param(*params, key@)->0
            },
            None => spec_str_list_param(*params, key@) is None,
        },
{
    match params.get(key) {
        Some(x) => match x.as_arr() {
            Some(items) => {
                let mut out: Vec<String> = Vec::new();
                let mut i: usize = 0;
                while i < items.len()
                    invariant
                        i <= items@.len(),
                        spec_obj_get(*params, key@) is Some,
                        spec_obj_get(*params, key@)->0 is Arr,
                        spec_obj_get(*params, key@)->0->Arr_0 == *items,
                        forall|j: int| 0 <= j < i ==> (#[trigger] items@[j]) is Str,
                        out@.len() == i,
                        forall|j: int| 0 <= j < i ==> out@[j] == items@[j]->Str_0,
                    decreases items@.len() - i,
                {
                    match items[i].as_str() {
                        Some(s) => {
                            out.push(s.clone());
                        },
                        None => {
                            proof {
                                assert(!all_strings(items@));
                            }
                            return None;
                        },
                    }
                    i = i + 1;
                }
                proof {
                    assert(all_strings(items@));
                    assert(out@ =~= items@.map_values(|e: JVal| e->Str_0));
                }
                Some(out)
            },
            None => None,
        },
        None => None,
    }
}

/// The fixed error text when a required parameter is missing.
pub open spec fn spec_missing_param(tool: Seq<char>, key: Seq<char>) -> Seq<char> {
    tool + " requires '"@ + key + "' parameter"@
}

/// The error text for a tool name the agent does not know.
pub open spec fn spec_unknown_tool(tool: Seq<char>) -> Seq<char> {
    "Unknown tool: "@ + tool
}

/// True when `tool` names one of the four tools.
pub open spec fn known_tool(tool: Seq<char>) -> bool {
    ||| tool == "list_files"@
    ||| tool == "search_files"@
    ||| tool == "read_file"@
    ||| tool == "file_info"@
}

/// Reads a request's tool name and parameters into a typed request.
///
/// The required parameter of each tool must be present as a string; optional
/// parameters fall back to their defaults when absent or of another shape,
/// as `search_files`' limit falls back to 20. An unrecognized tool name is
/// answered with an error, never dropped.
pub fn parse_tool_request(tool: &str, params: &JVal) -> (r: Result<ToolRequest, String>)
    ensures
        match r {
            Ok(req) => match req {
                ToolRequest::ListFiles(p) => {
                    &&& tool@ == "list_files"@
                    &&& spec_str_param(*params, "path"@) == Some(p.path)
                    &&& p.recursive == spec_bool_param(*params, "recursive"@, false)
                    &&& p.pattern == spec_str_param(*params, "pattern"@)
                },
                ToolRequest::SearchFiles(p) => {
                    &&& tool@ == "search_files"@
                    &&& spec_str_param(*params, "query"@) == Some(p.query)
                    &&& p.path == spec_str_param(*params, "path"@)
                    &&& p.search_content == spec_bool_param(*params, "search_content"@, false)
                    &&& (match spec_str_list_param(*params, "file_types"@) {
                        Some(ss) => p.file_types is Some && p.file_types->0@ == ss,
                        None => p.file_types is None,
                    })
                    &&& p.limit == (match spec_u64_param(*params, "limit"@) {
                        Some(n) => n,
                        None => 20,
                    })
                },
                ToolRequest::ReadFile(p) => {
                    &&& tool@ == "read_file"@
                    &&& spec_str_param(*params, "path"@) == Some(p.path)
                    &&& p.max_lines == spec_u64_param(*params, "max_lines"@)
                },
                ToolRequest::FileInfo(p) => {
                    &&& tool@ == "file_info"@
                    &&& spec_str_param(*params, "path"@) == Some(p.path)
                },
            },
            Err(m) => {
                ||| (tool@ == "list_files"@ && spec_str_param(*params, "path"@) is None && m@
                    == spec_missing_param("list_files"@, "path"@))
                ||| (tool@ == "search_files"@ && spec_str_param(*params, "query"@) is None && m@
                    == spec_missing_param("search_files"@, "query"@))
                ||| (tool@ == "read_file"@ && spec_str_param(*params, "path"@) is None && m@
                    == spec_missing_param("read_file"@, "path"@))
                ||| (tool@ == "file_info"@ && spec_str_param(*params, "path"@) is None && m@
                    == spec_missing_param("file_info"@, "path"@))
                ||| (!known_tool(tool@) && m@ == spec_unknown_tool(tool@))
            },
        },
{
    if str_eq(tool, "list_files") {
        let path = match get_str_param(params, "path") {
            Some(p) => p,
            None => {
                return Err(missing_param_text("list_files", "path"));
            },
        };
        let recursive = get_bool_param(params, "recursive", false);
        let pattern = get_str_param(params, "pattern");
        Ok(ToolRequest::ListFiles(ListFilesParams { path, recursive, pattern }))
    } else if str_eq(tool, "search_files") {
        let query = match get_str_param(params, "query") {
            Some(q) => q,
            None => {
                return Err(missing_param_text("search_files", "query"));
            },
        };
        let path = get_str_param(params, "path");
        let search_content = get_bool_param(params, "search_content", false);
        let file_types = get_str_list_param(params, "file_types");
        let limit = match get_u64_param(params, "limit") {
            Some(n) => n,
            None => 20,
        };
        Ok(
            ToolRequest::SearchFiles(
                SearchFilesParams { query, path, search_content, file_types, limit },
            ),
        )
    } else if str_eq(tool, "read_file") {
        let path = match get_str_param(params, "path") {
            Some(p) => p,
            None => {
                return Err(missing_param_text("read_file", "path"));
            },
        };
        let max_lines = get_u64_param(params, "max_lines");
        Ok(ToolRequest::ReadFile(ReadFileParams { path, max_lines }))
    } else if str_eq(tool, "file_info") {
        let path = match get_str_param(params, "path") {
            Some(p) => p,
            None => {
                return Err(missing_param_text("file_info", "path"));
            },
        };
        Ok(ToolRequest::FileInfo(FileInfoParams { path }))
    } else {
        let mut out: Vec<char> = Vec::new();
        push_str_chars(&mut out, "Unknown tool: ");
        push_str_chars(&mut out, tool);
        Err(chars_to_string(&out))
    }
}

/// The error text when `tool` lacks its required parameter `key`.
fn missing_param_text(tool: &str, key: &str) -> (r: String)
    ensures
        r@ == spec_missing_param(tool@, key@),
{
    let mut out: Vec<char> = Vec::new();
    push_str_chars(&mut out, tool);
    push_str_chars(&mut out, " requires '");
    push_str_chars(&mut out, key);
    push_str_chars(&mut out, "' parameter");
    chars_to_string(&out)
}

/// True when the glob pattern text compiles.
pub uninterp spec fn glob_ok(p: Seq<char>) -> bool;

/// True when the name matches the glob pattern; meaningful for patterns that
/// compile.
pub uninterp spec fn glob_match(p: Seq<char>, name: Seq<char>) -> bool;

/// Relies on glob::Pattern::new: whether a pattern text compiles depends on
/// that text alone, and the call returns an error description instead of
/// panicking on any input. The error's text is handed back as it came.
#[verifier::external_body]
fn glob_pattern_check(p: &str) -> (r: Option<String>)
    ensures
        r is None <==> glob_ok(p@),
{
    match glob::Pattern::new(p) {
        Ok(_) => None,
        Err(e) => Some(format!("{e}")),
    }
}

/// Relies on glob::Pattern::new and glob::Pattern::matches: for a pattern
/// text that compiles, whether a name matches is a function of the pattern
/// and name texts alone. The two calls stand in one body because the compiled
/// pattern value carries no statement tying it to its text; compiling at each
/// use keeps the contract honest at the price of repeated work.
#[verifier::external_body]
fn glob_match_name(p: &str, name: &str) -> (r: bool)
    requires
        glob_ok(p@),
    ensures
        r == glob_match(p@, name@),
{
    match glob::Pattern::new(p) {
        Ok(pat) => pat.matches(name),
        Err(_) => false,
    }
}

/// The standard base64 text of a byte string.
pub uninterp spec fn base64_of(bytes: Seq<u8>) -> Seq<char>;

/// Relies on base64's standard-alphabet engine (`STANDARD.encode`): the
/// encoding of a byte string is a function of the bytes alone, and an empty
/// input encodes to an empty text.
#[verifier::external_body]
fn encode_base64(bytes: &Vec<u8>) -> (r: String)
    ensures
        r@ == base64_of(bytes@),
        bytes@.len() == 0 ==> r@.len() == 0,
{
    base64::engine::general_purpose::STANDARD.encode(bytes)
}

/// Validates a path for `read_file` and `file_info`: the scope check first,
/// then the deny list, whose hit is an error here (the listing tools filter
/// silently instead). The denied message carries the path as requested; the
/// scope messages are `SecurityError`'s.
pub fn guarded_path(
    requested: &str,
    canonical: &Result<String, String>,
    scope_canonical: &Vec<Option<String>>,
) -> (r: Result<String, String>)
    ensures
        match r {
            Ok(c) => {
                &&& scope_canonical@.len() > 0
                &&& canonical is Ok
                &&& c@ == canonical->Ok_0@
                &&& spec_in_scope(c@, scope_canonical@)
                &&& !spec_is_denied(c@)
            },
            Err(m) => {
                ||| (scope_canonical@.len() == 0 && m@
                    == "Path is outside scoped folders: "@ + "No scoped folders configured"@)
                ||| (scope_canonical@.len() > 0 && canonical is Err && m@
                    == "Path resolution failed: "@ + requested@ + ": "@ + canonical->Err_0@)
                ||| (scope_canonical@.len() > 0 && canonical is Ok && !spec_in_scope(
                    canonical->Ok_0@,
                    scope_canonical@,
                ) && m@ == "Path is outside scoped folders: "@ + canonical->Ok_0@)
                ||| (scope_canonical@.len() > 0 && canonical is Ok && spec_in_scope(
                    canonical->Ok_0@,
                    scope_canonical@,
                ) && spec_is_denied(canonical->Ok_0@) && m@
                    == "Access denied — sensitive file: "@ + requested@)
            },
        },
{
    let c = match validate_path(requested, canonical, scope_canonical) {
        Ok(c) => c,
        Err(e) => {
            return Err(e.message());
        },
    };
    if is_denied(c.as_str()) {
        let mut out: Vec<char> = Vec::new();
        push_str_chars(&mut out, "Access denied — sensitive file: ");
        push_str_chars(&mut out, requested);
        return Err(chars_to_string(&out));
    }
    Ok(c)
}

/// The `modified_at` text of an entry: the quoted time, or `null`.
pub open spec fn spec_opt_str_text(v: Option<String>) -> Seq<char> {
    match v {
        Some(s) => spec_quoted(s@),
        None => "null"@,
    }
}

/// Appends the quoted text of `v`, or `null`.
fn push_opt_str_text(out: &mut Vec<char>, v: &Option<String>)
    ensures
        final(out)@ == old(out)@ + spec_opt_str_text(*v),
{
    match v {
        Some(s) => {
            let cs = str_to_chars(s.as_str());
            push_quoted(out, &cs);
        },
        None => {
            push_str_chars(out, "null");
        },
    }
}

/// Appends the `type` text of `k`.
fn push_kind_text(out: &mut Vec<char>, k: &EntryKind)
    ensures
        final(out)@ == old(out)@ + spec_kind_text(*k),
{
    match k {
        EntryKind::File => push_str_chars(out, "\"file\""),
        EntryKind::Directory => push_str_chars(out, "\"directory\""),
        EntryKind::Symlink => push_str_chars(out, "\"symlink\""),
    }
}

/// The JSON object text a listed entry becomes.
pub open spec fn spec_entry_text(e: EntryInfo) -> Seq<char> {
    "{\"name\":"@ + spec_quoted(e.name@) + ",\"path\":"@ + spec_quoted(e.path@) + ",\"size\":"@
        + spec_u64_chars(e.size) + ",\"type\":"@ + spec_kind_text(e.kind) + ",\"modified_at\":"@
        + spec_opt_str_text(e.modified_at) + "}"@
}

/// Appends the JSON object text of a listed entry.
fn push_entry_text(out: &mut Vec<char>, e: &EntryInfo)
    ensures
        final(out)@ == old(out)@ + spec_entry_text(*e),
{
    push_str_chars(out, "{\"name\":");
    let name = str_to_chars(e.name.as_str());
    push_quoted(out, &name);
    push_str_chars(out, ",\"path\":");
    let path = str_to_chars(e.path.as_str());
    push_quoted(out, &path);
    push_str_chars(out, ",\"size\":");
    let size = u64_to_chars(e.size);
    push_all(out, &size);
    push_str_chars(out, ",\"type\":");
    push_kind_text(out, &e.kind);
    push_str_chars(out, ",\"modified_at\":");
    push_opt_str_text(out, &e.modified_at);
    push_str_chars(out, "}");
    proof {
        assert(out@ =~= old(out)@ + spec_entry_text(*e));
    }
}

/// True when a walked entry appears in a listing: not the walk root itself,
/// not denied, and matching the glob pattern (against the file name alone)
/// when one is given.
pub open spec fn spec_list_kept(e: EntryInfo, root: Seq<char>, pattern: Option<String>) -> bool {
    &&& e.path@ != root
    &&& !spec_is_denied(e.path@)
    &&& (match pattern {
        Some(p) => glob_match(p@, e.name@),
        None => true,
    })
}

/// The comma-separated entry texts from index `i` on; `first` says whether no
/// entry has been written yet.
pub open spec fn spec_list_items(
    entries: Seq<EntryInfo>,
    root: Seq<char>,
    pattern: Option<String>,
    i: int,
    first: bool,
) -> Seq<char>
    decreases entries.len() - i,
{
    if i < 0 || i >= entries.len() {
        Seq::empty()
    } else if spec_list_kept(entries[i], root, pattern) {
        (if first {
            Seq::empty()
        } else {
            seq![',']
        }) + spec_entry_text(entries[i]) + spec_list_items(entries, root, pattern, i + 1, false)
    } else {
        spec_list_items(entries, root, pattern, i + 1, first)
    }
}

/// The `list_files` answer for these walked entries.
pub open spec fn spec_list_text(
    entries: Seq<EntryInfo>,
    root: Seq<char>,
    pattern: Option<String>,
) -> Seq<char> {
    "{\"files\":["@ + spec_list_items(entries, root, pattern, 0, true) + "]}"@
}

/// Builds the `list_files` answer: the kept entries of the walk, in walk
/// order. The pattern, when given, must compile, else the answer is the
/// invalid-pattern error.
pub fn list_files_data(
    pattern: &Option<String>,
    root: &str,
    entries: &Vec<EntryInfo>,
) -> (r: Result<String, String>)
    ensures
        match r {
            Ok(text) => {
                &&& (pattern matches Some(p) ==> glob_ok(p@))
                &&& text@ == spec_list_text(entries@, root@, *pattern)
            },
            Err(m) => {
                &&& *pattern is Some
                &&& !glob_ok(pattern->0@)
                &&& crate::chars::starts_with(m@, "Invalid glob pattern: "@)
            },
        },
{
    match pattern {
        Some(p) => {
            match glob_pattern_check(p.as_str()) {
                Some(err) => {
                    let mut out: Vec<char> = Vec::new();
                    push_str_chars(&mut out, "Invalid glob pattern: ");
                    push_str_chars(&mut out, err.as_str());
                    proof {
                        assert(out@.subrange(0, "Invalid glob pattern: "@.len() as int)
                            =~= "Invalid glob pattern: "@);
                    }
                    return Err(chars_to_string(&out));
                },
                None => {},
            }
        },
        None => {},
    }
    let mut out: Vec<char> = Vec::new();
    push_str_chars(&mut out, "{\"files\":[");
    let mut first: bool = true;
    let mut i: usize = 0;
    while i < entries.len()
        invariant
            i <= entries@.len(),
            pattern matches Some(p) ==> glob_ok(p@),
            out@ + spec_list_items(entries@, root@, *pattern, i as int, first) =~= "{\"files\":["@
                + spec_list_items(entries@, root@, *pattern, 0, true),
        decreases entries@.len() - i,
    {
        let e = &entries[i];
        let not_root = !str_eq(e.path.as_str(), root);
        let kept = not_root && !is_denied(e.path.as_str()) && (match pattern {
            Some(p) => glob_match_name(p.as_str(), e.name.as_str()),
            None => true,
        });
        proof {
            assert(kept == spec_list_kept(entries@[i as int], root@, *pattern));
        }
        if kept {
            if !first {
                out.push(',');
            }
            push_entry_text(&mut out, e);
            first = false;
        }
        i = i + 1;
        proof {
            assert(out@ + spec_list_items(entries@, root@, *pattern, i as int, first)
                =~= "{\"files\":["@ + spec_list_items(entries@, root@, *pattern, 0, true));
        }
    }
    push_str_chars(&mut out, "]}");
    proof {
        assert(out@ =~= spec_list_text(entries@, root@, *pattern));
    }
    Ok(chars_to_string(&out))
}

/// The size cap for `read_file`, in bytes.
pub open spec fn spec_max_read_size() -> int {
    (50 * 1024 * 1024) as int
}

/// A file's size in tenths of a megabyte, rounded to the nearest tenth
/// (half upward).
pub open spec fn spec_mb_tenths(size: u64) -> int {
    (size * 10 + 524288) / 1048576
}

/// The error text for a file over the size cap: its size to one decimal.
pub open spec fn spec_size_error_text(size: u64) -> Seq<char> {
    let t = spec_mb_tenths(size);
    "File too large ("@ + spec_u64_chars((t / 10) as u64) + seq!['.'] + seq![
        crate::json::digit_char((t % 10) as u64),
    ] + " MB). Maximum is 50 MB. Use local_file_info for metadata."@
}

/// The error text when `read_file` is pointed at a directory.
pub open spec fn spec_dir_error_text() -> Seq<char> {
    "Cannot read a directory. Use list_files instead."@
}

/// Refuses reads of over-sized files and of directories, in that order.
pub fn read_file_size_check(size: u64, is_dir: bool) -> (r: Result<(), String>)
    ensures
        match r {
            Ok(_) => size <= spec_max_read_size() && !is_dir,
            Err(m) => {
                ||| (size > spec_max_read_size() && m@ == spec_size_error_text(size))
                ||| (size <= spec_max_read_size() && is_dir && m@ == spec_dir_error_text())
            },
        },
{
    if size > 50 * 1024 * 1024 {
        let t128: u128 = ((size as u128) * 10 + 524288) / 1048576;
        proof {
            assert(t128 == spec_mb_tenths(size)) by (nonlinear_arith)
                requires t128 == ((size as u128) * 10 + 524288) / 1048576;
            assert(spec_mb_tenths(size) <= 0xffff_ffff_ffff_ffff) by (nonlinear_arith);
        }
        let t: u64 = t128 as u64;
        let mut out: Vec<char> = Vec::new();
        push_str_chars(&mut out, "File too large (");
        let whole = u64_to_chars(t / 10);
        push_all(&mut out, &whole);
        out.push('.');
        out.push((('0' as u8) + ((t % 10) as u8)) as char);
        push_str_chars(&mut out, " MB). Maximum is 50 MB. Use local_file_info for metadata.");
        proof {
            assert(out@ =~= spec_size_error_text(size));
        }
        return Err(chars_to_string(&out));
    }
    if is_dir {
        return Err(String::from_str("Cannot read a directory. Use list_files instead."));
    }
    Ok(())
}

/// True when the bytes carry a NUL, the mark of a binary file.
pub open spec fn spec_has_nul(bytes: Seq<u8>) -> bool {
    exists|i: int| 0 <= i < bytes.len() && bytes[i] == 0
}

/// Decides whether a file is binary from its leading bytes: any NUL byte
/// among them marks it binary.
pub fn is_binary_chunk(chunk: &Vec<u8>) -> (r: bool)
    ensures
        r == spec_has_nul(chunk@),
{
    let mut i: usize = 0;
    while i < chunk.len()
        invariant
            i <= chunk@.len(),
            forall|j: int| 0 <= j < i ==> chunk@[j] != 0,
        decreases chunk@.len() - i,
    {
        if chunk[i] == 0 {
            return true;
        }
        i = i + 1;
    }
    false
}

/// The `read_file` answer for a binary file: its bytes as base64.
pub open spec fn spec_binary_data_text(bytes: Seq<u8>) -> Seq<char> {
    "{\"content\":"@ + spec_quoted(base64_of(bytes)) + ",\"encoding\":\"base64\"}"@
}

/// Builds the `read_file` answer for a binary file, with the raw byte count.
pub fn read_file_binary_data(bytes: &Vec<u8>) -> (r: (String, u64))
    ensures
        r.0@ == spec_binary_data_text(bytes@),
        r.1 == bytes@.len(),
{
    let encoded = encode_base64(bytes);
    let mut out: Vec<char> = Vec::new();
    push_str_chars(&mut out, "{\"content\":");
    let cs = str_to_chars(encoded.as_str());
    push_quoted(&mut out, &cs);
    push_str_chars(&mut out, ",\"encoding\":\"base64\"}");
    proof {
        assert(out@ =~= spec_binary_data_text(bytes@));
    }
    (chars_to_string(&out), bytes.len() as u64)
}

/// One text line: its raw segment with a trailing carriage return dropped.
pub open spec fn spec_line_of(seg: Seq<char>) -> Seq<char> {
    if seg.len() > 0 && seg.last() == '\r' {
        seg.drop_last()
    } else {
        seg
    }
}

/// The lines of a text: newline-split segments, a final empty segment (from a
/// trailing newline, or an empty text) not counting as a line.
pub open spec fn spec_lines_of(s: Seq<char>) -> Seq<Seq<char>> {
    let raw = crate::chars::spec_split_on(s, '\n');
    let trimmed = if raw.len() > 0 && raw.last().len() == 0 {
        raw.drop_last()
    } else {
        raw
    };
    trimmed.map_values(|seg: Seq<char>| spec_line_of(seg))
}

/// The first `upto` lines joined by newlines, from index `i` on.
pub open spec fn spec_join_lines(lines: Seq<Seq<char>>, upto: int, i: int) -> Seq<char>
    decreases upto - i,
{
    if i < 0 || i >= upto || i >= lines.len() {
        Seq::empty()
    } else {
        (if i > 0 {
            seq!['\n']
        } else {
            Seq::empty()
        }) + lines[i] + spec_join_lines(lines, upto, i + 1)
    }
}

/// The content the `read_file` answer carries: the whole text, or its first
/// `max_lines` lines joined by newlines.
pub open spec fn spec_read_content(s: Seq<char>, max_lines: Option<u64>) -> Seq<char> {
    match max_lines {
        Some(limit) => spec_join_lines(spec_lines_of(s), limit as int, 0),
        None => s,
    }
}

/// The `read_file` answer for a text file.
pub open spec fn spec_text_data_text(s: Seq<char>, max_lines: Option<u64>) -> Seq<char> {
    "{\"content\":"@ + spec_quoted(spec_read_content(s, max_lines)) + ",\"encoding\":\"utf-8\"}"@
}

/// Appends one line: the segment without its trailing carriage return.
fn push_line(out: &mut Vec<char>, seg: &Vec<char>)
    ensures
        final(out)@ == old(out)@ + spec_line_of(seg@),
{
    if seg.len() > 0 && seg[seg.len() - 1] == '\r' {
        let mut i: usize = 0;
        let n = seg.len() - 1;
        while i < n
            invariant
                n == seg@.len() - 1,
                i <= n,
                out@ == old(out)@ + seg@.subrange(0, i as int),
            decreases n - i,
        {
            out.push(seg[i]);
            i = i + 1;
            proof {
                assert(out@ =~= old(out)@ + seg@.subrange(0, i as int));
            }
        }
        proof {
            assert(seg@.subrange(0, seg@.len() - 1) =~= spec_line_of(seg@));
        }
    } else {
        push_all(out, seg);
    }
}

/// The truncated content: the first `limit` lines, joined by newlines.
fn truncated_content(content: &str, limit: u64) -> (r: Vec<char>)
    ensures
        r@ == spec_join_lines(spec_lines_of(content@), limit as int, 0),
{
    let mut segs = crate::chars::split_on(content, '\n');
    let ghost raw = crate::chars::views(segs@);
    if segs.len() > 0 && segs[segs.len() - 1].len() == 0 {
        let ghost pre = segs@;
        let _ = segs.pop();
        proof {
            assert(crate::chars::views(segs@) =~= raw.drop_last());
        }
    }
    let ghost lines = spec_lines_of(content@);
    proof {
        assert(crate::chars::views(segs@).map_values(|seg: Seq<char>| spec_line_of(seg))
            =~= lines);
    }
    let mut out: Vec<char> = Vec::new();
    let mut i: usize = 0;
    while i < segs.len() && (i as u64) < limit
        invariant
            i <= segs@.len(),
            lines == crate::chars::views(segs@).map_values(|seg: Seq<char>| spec_line_of(seg)),
            lines.len() == segs@.len(),
            out@ + spec_join_lines(lines, limit as int, i as int) =~= spec_join_lines(
                lines,
                limit as int,
                0,
            ),
            i > 0 ==> i <= limit,
        decreases segs@.len() - i,
    {
        if i > 0 {
            out.push('\n');
        }
        proof {
            assert(lines[i as int] == spec_line_of(crate::chars::views(segs@)[i as int]));
        }
        push_line(&mut out, &segs[i]);
        i = i + 1;
        proof {
            assert(out@ + spec_join_lines(lines, limit as int, i as int) =~= spec_join_lines(
                lines,
                limit as int,
                0,
            ));
        }
    }
    proof {
        assert(spec_join_lines(lines, limit as int, i as int) =~= Seq::<char>::empty());
        assert(out@ =~= spec_join_lines(lines, limit as int, 0));
    }
    out
}

/// Builds the `read_file` answer for a text file, with the byte count of the
/// untruncated content.
pub fn read_file_text_data(content: &str, max_lines: &Option<u64>) -> (r: (String, u64))
    requires
        content.spec_bytes().len() < usize::MAX,
    ensures
        r.0@ == spec_text_data_text(content@, *max_lines),
        r.1 == content.spec_bytes().len(),
{
    let byte_len: u64 = content.len() as u64;
    let body: Vec<char> = match max_lines {
        Some(limit) => truncated_content(content, *limit),
        None => str_to_chars(content),
    };
    let mut out: Vec<char> = Vec::new();
    push_str_chars(&mut out, "{\"content\":");
    push_quoted(&mut out, &body);
    push_str_chars(&mut out, ",\"encoding\":\"utf-8\"}");
    proof {
        assert(out@ =~= spec_text_data_text(content@, *max_lines));
    }
    (chars_to_string(&out), byte_len)
}

/// The lowercased extension of a file name: what follows the last dot, for a
/// name with a dot after its first character; else empty. A name such as
/// `.env` has no extension; `a.` has the empty one, spelled the same here.
pub open spec fn spec_ext_lower(name: Seq<char>) -> Seq<char> {
    let parts = crate::chars::spec_split_on(name, '.');
    if parts.len() <= 1 || (parts.len() == 2 && parts[0].len() == 0) {
        Seq::empty()
    } else {
        lower_of(parts.last())
    }
}

/// The lowercased extension of a file name, as characters.
pub fn ext_lower(name: &str) -> (r: Vec<char>)
    ensures
        r@ == spec_ext_lower(name@),
{
    let parts = crate::chars::split_on(name, '.');
    if parts.len() <= 1 || (parts.len() == 2 && parts[0].len() == 0) {
        proof {
            assert(crate::chars::views(parts@).len() == parts@.len());
            assert(parts@.len() >= 2 ==> crate::chars::views(parts@)[0].len() == parts@[0]@.len());
        }
        Vec::new()
    } else {
        proof {
            assert(crate::chars::views(parts@).last() == parts@[parts@.len() - 1]@);
        }
        lower_vec(&parts[parts.len() - 1])
    }
}

/// True when the entry's extension passes the `file_types` filter: with no
/// filter every entry passes; with one, some requested type, lowercased,
/// must equal the entry's lowercased extension.
pub open spec fn spec_types_match(file_types: Option<Vec<String>>, name: Seq<char>) -> bool {
    match file_types {
        None => true,
        Some(ts) => exists|i: int|
            0 <= i < ts@.len() && lower_of((#[trigger] ts@[i])@) == spec_ext_lower(name),
    }
}

/// Whether the entry's extension passes the `file_types` filter.
pub fn types_match(file_types: &Option<Vec<String>>, name: &str) -> (r: bool)
    ensures
        r == spec_types_match(*file_types, name@),
{
    match file_types {
        None => true,
        Some(ts) => {
            let ext = ext_lower(name);
            let mut i: usize = 0;
            while i < ts.len()
                invariant
                    i <= ts@.len(),
                    *file_types is Some && file_types->0 == *ts,
                    ext@ == spec_ext_lower(name@),
                    forall|j: int| 0 <= j < i ==> lower_of((#[trigger] ts@[j])@) != spec_ext_lower(
                        name@,
                    ),
                decreases ts@.len() - i,
            {
                let t = str_to_chars(ts[i].as_str());
                let tl = lower_vec(&t);
                if crate::chars::chars_eq(&tl, &ext) {
                    proof {
                        assert(lower_of(ts@[i as int]@) == spec_ext_lower(name@));
                    }
                    return true;
                }
                i = i + 1;
            }
            false
        },
    }
}

/// True when a walked entry is a file-name hit for `search_files`: a file
/// (not a directory), not denied, passing the type filter, whose lowercased
/// name carries the lowercased query.
pub open spec fn spec_name_hit(
    e: EntryInfo,
    query: Seq<char>,
    file_types: Option<Vec<String>>,
) -> bool {
    &&& !(e.kind is Directory)
    &&& !spec_is_denied(e.path@)
    &&& spec_types_match(file_types, e.name@)
    &&& contains_seq(lower_of(e.name@), lower_of(query))
}

/// The JSON object text of a file-name search hit.
pub open spec fn spec_name_hit_text(e: EntryInfo) -> Seq<char> {
    "{\"path\":"@ + spec_quoted(e.path@) + ",\"name\":"@ + spec_quoted(e.name@) + "}"@
}

/// The comma-separated hit texts from index `i` on, stopping once `limit`
/// results stand; `taken` counts the results already written.
pub open spec fn spec_name_items(
    entries: Seq<EntryInfo>,
    query: Seq<char>,
    file_types: Option<Vec<String>>,
    limit: u64,
    i: int,
    taken: int,
) -> Seq<char>
    decreases entries.len() - i,
{
    if i < 0 || i >= entries.len() || taken >= limit {
        Seq::empty()
    } else if spec_name_hit(entries[i], query, file_types) {
        (if taken > 0 {
            seq![',']
        } else {
            Seq::empty()
        }) + spec_name_hit_text(entries[i]) + spec_name_items(
            entries,
            query,
            file_types,
            limit,
            i + 1,
            taken + 1,
        )
    } else {
        spec_name_items(entries, query, file_types, limit, i + 1, taken)
    }
}

/// The `search_files` answer in file-name mode.
pub open spec fn spec_search_names_text(
    entries: Seq<EntryInfo>,
    query: Seq<char>,
    file_types: Option<Vec<String>>,
    limit: u64,
) -> Seq<char> {
    "{\"results\":["@ + spec_name_items(entries, query, file_types, limit, 0, 0) + "]}"@
}

/// Builds the `search_files` answer in file-name mode: the first `limit`
/// hits among the walked entries, in walk order.
pub fn search_names_data(
    query: &str,
    file_types: &Option<Vec<String>>,
    limit: u64,
    entries: &Vec<EntryInfo>,
) -> (r: String)
    ensures
        r@ == spec_search_names_text(entries@, query@, *file_types, limit),
{
    let qchars = str_to_chars(query);
    let ql = lower_vec(&qchars);
    let mut out: Vec<char> = Vec::new();
    push_str_chars(&mut out, "{\"results\":[");
    let mut taken: u64 = 0;
    let mut i: usize = 0;
    while i < entries.len() && taken < limit
        invariant
            i <= entries@.len(),
            taken <= limit,
            ql@ == lower_of(query@),
            out@ + spec_name_items(entries@, query@, *file_types, limit, i as int, taken as int)
                =~= "{\"results\":["@ + spec_name_items(entries@, query@, *file_types, limit, 0, 0),
        decreases entries@.len() - i,
    {
        let e = &entries[i];
        let is_dir = match e.kind {
            EntryKind::Directory => true,
            _ => false,
        };
        let mut hit = !is_dir && !is_denied(e.path.as_str()) && types_match(
            file_types,
            e.name.as_str(),
        );
        if hit {
            let nchars = str_to_chars(e.name.as_str());
            let nl = lower_vec(&nchars);
            hit = contains_chars(&nl, &ql);
        }
        proof {
            assert(hit == spec_name_hit(entries@[i as int], query@, *file_types));
        }
        if hit {
            if taken > 0 {
                out.push(',');
            }
            push_str_chars(&mut out, "{\"path\":");
            let path = str_to_chars(e.path.as_str());
            push_quoted(&mut out, &path);
            push_str_chars(&mut out, ",\"name\":");
            let name = str_to_chars(e.name.as_str());
            push_quoted(&mut out, &name);
            push_str_chars(&mut out, "}");
            taken = taken + 1;
        }
        i = i + 1;
        proof {
            assert(out@ + spec_name_items(entries@, query@, *file_types, limit, i as int,
                taken as int) =~= "{\"results\":["@ + spec_name_items(
                entries@,
                query@,
                *file_types,
                limit,
                0,
                0,
            ));
        }
    }
    push_str_chars(&mut out, "]}");
    proof {
        assert(spec_name_items(entries@, query@, *file_types, limit, i as int, taken as int)
            =~= Seq::<char>::empty());
        assert(out@ =~= spec_search_names_text(entries@, query@, *file_types, limit));
    }
    chars_to_string(&out)
}

/// The cap on files whose content is searched, in bytes.
pub open spec fn spec_max_search_size() -> int {
    (10 * 1024 * 1024) as int
}

/// True when a walked entry's content is worth opening in content mode: a
/// file (not a directory), not denied, passing the type filter, within the
/// content-search size cap.
pub open spec fn spec_content_candidate(e: EntryInfo, file_types: Option<Vec<String>>) -> bool {
    &&& !(e.kind is Directory)
    &&& !spec_is_denied(e.path@)
    &&& spec_types_match(file_types, e.name@)
    &&& e.size <= spec_max_search_size()
}

/// Whether an entry's content is to be opened and searched.
pub fn search_content_candidate(e: &EntryInfo, file_types: &Option<Vec<String>>) -> (r: bool)
    ensures
        r == spec_content_candidate(*e, *file_types),
{
    let is_dir = match e.kind {
        EntryKind::Directory => true,
        _ => false,
    };
    !is_dir && !is_denied(e.path.as_str()) && types_match(file_types, e.name.as_str()) && e.size
        <= 10 * 1024 * 1024
}

/// True when the line holds the query, both lowercased.
pub open spec fn spec_line_matches(line: Seq<char>, query: Seq<char>) -> bool {
    contains_seq(lower_of(line), lower_of(query))
}

/// A matched line shown in a result: its first 200 characters, with an
/// ellipsis when it was longer.
pub open spec fn spec_truncated_line(l: Seq<char>) -> Seq<char> {
    if l.len() > 200 {
        l.subrange(0, 200) + seq!['…']
    } else {
        l
    }
}

/// The `match_context` text for a hit on line index `j` (shown one-based).
pub open spec fn spec_context_text(l: Seq<char>, j: int) -> Seq<char> {
    "L"@ + spec_u64_chars((j + 1) as u64) + ": "@ + spec_truncated_line(l)
}

/// Scans a file's lines for the query, both sides lowercased, and renders
/// the first matching line as the match context.
pub fn content_match_context(lines: &Vec<String>, query: &str) -> (r: Option<String>)
    requires
        lines@.len() < u64::MAX,
    ensures
        match r {
            Some(ctx) => exists|j: int|
                {
                    &&& 0 <= j < lines@.len()
                    &&& spec_line_matches((#[trigger] lines@[j])@, query@)
                    &&& forall|k: int|
                        0 <= k < j ==> !spec_line_matches((#[trigger] lines@[k])@, query@)
                    &&& ctx@ == spec_context_text(lines@[j]@, j)
                },
            None => forall|k: int|
                0 <= k < lines@.len() ==> !spec_line_matches((#[trigger] lines@[k])@, query@),
        },
{
    let qchars = str_to_chars(query);
    let ql = lower_vec(&qchars);
    let mut j: usize = 0;
    while j < lines.len()
        invariant
            j <= lines@.len(),
            lines@.len() < u64::MAX,
            ql@ == lower_of(query@),
            forall|k: int| 0 <= k < j ==> !spec_line_matches((#[trigger] lines@[k])@, query@),
        decreases lines@.len() - j,
    {
        let lchars = str_to_chars(lines[j].as_str());
        let ll = lower_vec(&lchars);
        if contains_chars(&ll, &ql) {
            let mut out: Vec<char> = Vec::new();
            push_str_chars(&mut out, "L");
            let num = u64_to_chars((j as u64) + 1);
            push_all(&mut out, &num);
            push_str_chars(&mut out, ": ");
            if lchars.len() > 200 {
                let ghost base = out@;
                let mut t: usize = 0;
                while t < 200
                    invariant
                        t <= 200,
                        lchars@.len() > 200,
                        out@ == base + lchars@.subrange(0, t as int),
                    decreases 200 - t,
                {
                    out.push(lchars[t]);
                    t = t + 1;
                    proof {
                        assert(out@ =~= base + lchars@.subrange(0, t as int));
                    }
                }
                out.push('…');
            } else {
                push_all(&mut out, &lchars);
            }
            proof {
                assert(out@ =~= spec_context_text(lines@[j as int]@, j as int));
            }
            return Some(chars_to_string(&out));
        }
        j = j + 1;
    }
    None
}

/// The JSON object text of a content search hit.
pub open spec fn spec_content_hit_text(e: EntryInfo, ctx: Seq<char>) -> Seq<char> {
    "{\"path\":"@ + spec_quoted(e.path@) + ",\"name\":"@ + spec_quoted(e.name@)
        + ",\"match_context\":"@ + spec_quoted(ctx) + "}"@
}

/// Builds the result object of a content search hit.
pub fn search_content_hit(e: &EntryInfo, ctx: &str) -> (r: String)
    ensures
        r@ == spec_content_hit_text(*e, ctx@),
{
    let mut out: Vec<char> = Vec::new();
    push_str_chars(&mut out, "{\"path\":");
    let path = str_to_chars(e.path.as_str());
    push_quoted(&mut out, &path);
    push_str_chars(&mut out, ",\"name\":");
    let name = str_to_chars(e.name.as_str());
    push_quoted(&mut out, &name);
    push_str_chars(&mut out, ",\"match_context\":");
    let c = str_to_chars(ctx);
    push_quoted(&mut out, &c);
    push_str_chars(&mut out, "}");
    proof {
        assert(out@ =~= spec_content_hit_text(*e, ctx@));
    }
    chars_to_string(&out)
}

/// The pre-rendered result objects from index `i` on, comma-separated.
pub open spec fn spec_raw_items(items: Seq<String>, i: int) -> Seq<char>
    decreases items.len() - i,
{
    if i < 0 || i >= items.len() {
        Seq::empty()
    } else {
        (if i > 0 {
            seq![',']
        } else {
            Seq::empty()
        }) + items[i]@ + spec_raw_items(items, i + 1)
    }
}

/// The `search_files` answer around pre-rendered result objects.
pub open spec fn spec_results_text(items: Seq<String>) -> Seq<char> {
    "{\"results\":["@ + spec_raw_items(items, 0) + "]}"@
}

/// Wraps collected result objects into the `search_files` answer.
pub fn wrap_results(items: &Vec<String>) -> (r: String)
    ensures
        r@ == spec_results_text(items@),
{
    let mut out: Vec<char> = Vec::new();
    push_str_chars(&mut out, "{\"results\":[");
    let mut i: usize = 0;
    while i < items.len()
        invariant
            i <= items@.len(),
            out@ + spec_raw_items(items@, i as int) =~= "{\"results\":["@ + spec_raw_items(
                items@,
                0,
            ),
        decreases items@.len() - i,
    {
        if i > 0 {
            out.push(',');
        }
        push_str_chars(&mut out, items[i].as_str());
        i = i + 1;
        proof {
            assert(out@ + spec_raw_items(items@, i as int) =~= "{\"results\":["@ + spec_raw_items(
                items@,
                0,
            ));
        }
    }
    push_str_chars(&mut out, "]}");
    proof {
        assert(out@ =~= spec_results_text(items@));
    }
    chars_to_string(&out)
}

/// The strings of `v`, copied.
pub fn clone_strings(v: &Vec<String>) -> (r: Vec<String>)
    ensures
        r@.len() == v@.len(),
        forall|i: int| 0 <= i < v@.len() ==> r@[i] == v@[i],
{
    let mut out: Vec<String> = Vec::new();
    let mut i: usize = 0;
    while i < v.len()
        invariant
            i <= v@.len(),
            out@.len() == i,
            forall|j: int| 0 <= j < i ==> out@[j] == v@[j],
        decreases v@.len() - i,
    {
        out.push(v[i].clone());
        i = i + 1;
    }
    out
}

/// The directories a `search_files` request walks: the requested path when
/// one is given and it passes the scope check (the walk starts at the path as
/// requested, not at its canonical form), else every scoped folder.
pub fn search_roots(
    path: &Option<String>,
    canonical: &Result<String, String>,
    scope_canonical: &Vec<Option<String>>,
    scoped_folders: &Vec<String>,
) -> (r: Result<Vec<String>, String>)
    ensures
        match r {
            Ok(roots) => match path {
                Some(p) => {
                    &&& canonical is Ok
                    &&& spec_in_scope(canonical->Ok_0@, scope_canonical@)
                    &&& roots@.len() == 1
                    &&& roots@[0] == *p
                },
                None => {
                    &&& roots@.len() == scoped_folders@.len()
                    &&& forall|i: int|
                        0 <= i < roots@.len() ==> roots@[i] == scoped_folders@[i]
                },
            },
            Err(m) => {
                &&& *path is Some
                &&& !(canonical is Ok && spec_in_scope(canonical->Ok_0@, scope_canonical@))
            },
        },
{
    match path {
        Some(p) => match validate_path(p.as_str(), canonical, scope_canonical) {
            Ok(_) => {
                let mut roots: Vec<String> = Vec::new();
                roots.push(p.clone());
                Ok(roots)
            },
            Err(e) => Err(e.message()),
        },
        None => Ok(clone_strings(scoped_folders)),
    }
}

/// How a file's permissions were observed: a POSIX mode, or a read-only flag
/// on systems without one.
pub enum PermissionInfo {
    UnixMode(u32),
    ReadOnly(bool),
}

/// The octal digit character for `d` (which must be below 8).
pub open spec fn octal_char(d: u32) -> char {
    (('0' as u8) + (d as u8)) as char
}

/// Octal text of a mode word.
pub open spec fn spec_octal_chars(n: u32) -> Seq<char>
    decreases n,
{
    if n < 8 {
        seq![octal_char(n)]
    } else {
        spec_octal_chars(n / 8) + seq![octal_char(n % 8)]
    }
}

/// The permissions text: the mode in octal, or the read-only flag's name.
pub open spec fn spec_perm_text(p: PermissionInfo) -> Seq<char> {
    match p {
        PermissionInfo::UnixMode(m) => spec_octal_chars(m),
        PermissionInfo::ReadOnly(ro) => if ro {
            "readonly"@
        } else {
            "read-write"@
        },
    }
}

/// Octal text of a mode word, as characters.
fn octal_chars(n: u32) -> (r: Vec<char>)
    ensures
        r@ == spec_octal_chars(n),
    decreases n,
{
    if n < 8 {
        let mut r: Vec<char> = Vec::new();
        r.push((('0' as u8) + (n as u8)) as char);
        proof {
            assert(r@ =~= seq![octal_char(n)]);
        }
        r
    } else {
        let mut r = octal_chars(n / 8);
        r.push((('0' as u8) + ((n % 8) as u8)) as char);
        proof {
            assert(r@ =~= spec_octal_chars(n / 8) + seq![octal_char(n % 8)]);
        }
        r
    }
}

/// Renders a file's permissions: the POSIX mode as octal text, or
/// `readonly` / `read-write` where only the flag is known.
pub fn format_permissions(p: &PermissionInfo) -> (r: String)
    ensures
        r@ == spec_perm_text(*p),
{
    match p {
        PermissionInfo::UnixMode(m) => {
            let digits = octal_chars(*m);
            chars_to_string(&digits)
        },
        PermissionInfo::ReadOnly(ro) => {
            if *ro {
                String::from_str("readonly")
            } else {
                String::from_str("read-write")
            }
        },
    }
}

/// The file name of a path text: its last component, when it has one and
/// that component is not the parent marker.
pub open spec fn spec_file_name(path: Seq<char>) -> Seq<char> {
    let comps = path_components(path);
    if comps.len() > 0 && comps.last() != ".."@ {
        comps.last()
    } else {
        Seq::empty()
    }
}

/// The file name of a path text.
pub fn file_name_of(path: &str) -> (r: String)
    ensures
        r@ == spec_file_name(path@),
{
    let comps = crate::security::components_of(path);
    if comps.len() == 0 {
        return String::new();
    }
    let last = &comps[comps.len() - 1];
    proof {
        assert(last@ == crate::chars::views(comps@)[comps@.len() - 1]);
    }
    if chars_eq_str(last, "..") {
        return String::new();
    }
    chars_to_string(last)
}

/// What `file_info` reports of a file, as the filesystem gave it.
pub struct FileStat {
    /// Size in bytes.
    pub size: u64,
    /// File, directory or symlink.
    pub kind: EntryKind,
    /// Modification time as RFC-3339 text, when the filesystem reports one.
    pub modified_at: Option<String>,
    /// The permissions as observed.
    pub permissions: PermissionInfo,
    /// Whether the file could be opened for reading.
    pub is_readable: bool,
}

/// The boolean text `true` or `false`.
pub open spec fn spec_bool_text(b: bool) -> Seq<char> {
    if b {
        "true"@
    } else {
        "false"@
    }
}

/// The `file_info` answer for a validated path.
pub open spec fn spec_file_info_text(canonical: Seq<char>, stat: FileStat) -> Seq<char> {
    "{\"name\":"@ + spec_quoted(spec_file_name(canonical)) + ",\"path\":"@ + spec_quoted(canonical)
        + ",\"size\":"@ + spec_u64_chars(stat.size) + ",\"type\":"@ + spec_kind_text(stat.kind)
        + ",\"modified_at\":"@ + spec_opt_str_text(stat.modified_at) + ",\"permissions\":"@
        + spec_quoted(spec_perm_text(stat.permissions)) + ",\"is_readable\":"@ + spec_bool_text(
        stat.is_readable,
    ) + "}"@
}

/// Builds the `file_info` answer from the canonical path and its metadata.
pub fn file_info_data(canonical: &str, stat: &FileStat) -> (r: String)
    ensures
        r@ == spec_file_info_text(canonical@, *stat),
{
    let mut out: Vec<char> = Vec::new();
    push_str_chars(&mut out, "{\"name\":");
    let name = file_name_of(canonical);
    let name_chars = str_to_chars(name.as_str());
    push_quoted(&mut out, &name_chars);
    push_str_chars(&mut out, ",\"path\":");
    let path_chars = str_to_chars(canonical);
    push_quoted(&mut out, &path_chars);
    push_str_chars(&mut out, ",\"size\":");
    let size = u64_to_chars(stat.size);
    push_all(&mut out, &size);
    push_str_chars(&mut out, ",\"type\":");
    push_kind_text(&mut out, &stat.kind);
    push_str_chars(&mut out, ",\"modified_at\":");
    push_opt_str_text(&mut out, &stat.modified_at);
    push_str_chars(&mut out, ",\"permissions\":");
    let perm = format_permissions(&stat.permissions);
    let perm_chars = str_to_chars(perm.as_str());
    push_quoted(&mut out, &perm_chars);
    push_str_chars(&mut out, ",\"is_readable\":");
    if stat.is_readable {
        push_str_chars(&mut out, "true");
    } else {
        push_str_chars(&mut out, "false");
    }
    push_str_chars(&mut out, "}");
    proof {
        assert(out@ =~= spec_file_info_text(canonical@, *stat));
    }
    chars_to_string(&out)
}

/// Law: a path that hits the deny list is never shown. It is not kept by a
/// listing, is no file-name search hit, and is never opened for a content
/// search, whatever the walk root, pattern, query or type filter; the
/// reading tools refuse it at their gate instead of answering.
pub proof fn lemma_denied_filtered(
    e: EntryInfo,
    root: Seq<char>,
    pattern: Option<String>,
    query: Seq<char>,
    file_types: Option<Vec<String>>,
)
    requires
        spec_is_denied(e.path@),
    ensures
        !spec_list_kept(e, root, pattern),
        !spec_name_hit(e, query, file_types),
        !spec_content_candidate(e, file_types),
{
}

/// Law: `list_files` is idempotent. Two answers over the same walked entries,
/// root and pattern are byte-identical: the answer is a function of those
/// values alone.
pub proof fn lemma_list_files_idempotent(
    r1: Seq<char>,
    r2: Seq<char>,
    entries: Seq<EntryInfo>,
    root: Seq<char>,
    pattern: Option<String>,
)
    requires
        r1 == spec_list_text(entries, root, pattern),
        r2 == spec_list_text(entries, root, pattern),
    ensures
        r1 == r2,
{
}

/// Law: `read_file` is idempotent. Two answers over the same bytes — or the
/// same text and line limit — are byte-identical.
pub proof fn lemma_read_file_idempotent(
    r1: Seq<char>,
    r2: Seq<char>,
    bytes: Seq<u8>,
    t1: Seq<char>,
    t2: Seq<char>,
    content: Seq<char>,
    max_lines: Option<u64>,
)
    requires
        r1 == spec_binary_data_text(bytes),
        r2 == spec_binary_data_text(bytes),
        t1 == spec_text_data_text(content, max_lines),
        t2 == spec_text_data_text(content, max_lines),
    ensures
        r1 == r2,
        t1 == t2,
{
}

/// Law: `search_files` in file-name mode is idempotent. Two answers over the
/// same walked entries, query, type filter and limit are byte-identical.
pub proof fn lemma_search_files_idempotent(
    r1: Seq<char>,
    r2: Seq<char>,
    entries: Seq<EntryInfo>,
    query: Seq<char>,
    file_types: Option<Vec<String>>,
    limit: u64,
)
    requires
        r1 == spec_search_names_text(entries, query, file_types, limit),
        r2 == spec_search_names_text(entries, query, file_types, limit),
    ensures
        r1 == r2,
{
}

/// Law: `file_info` is idempotent. Two answers over the same canonical path
/// and the same observed metadata are byte-identical.
pub proof fn lemma_file_info_idempotent(
    r1: Seq<char>,
    r2: Seq<char>,
    canonical: Seq<char>,
    stat: FileStat,
)
    requires
        r1 == spec_file_info_text(canonical, stat),
        r2 == spec_file_info_text(canonical, stat),
    ensures
        r1 == r2,
{
}

} // verus!
