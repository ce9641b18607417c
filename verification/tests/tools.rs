use base64::Engine;
use beakr_core::json::JVal;
use beakr_core::tools::{
    parse_tool_request, ToolRequest, EntryInfo, EntryKind, FileStat, PermissionInfo,
    list_files_data, guarded_path, read_file_size_check, is_binary_chunk, read_file_binary_data,
    read_file_text_data, search_names_data, search_content_candidate, content_match_context,
    search_content_hit, wrap_results, search_roots, file_info_data, format_permissions,
    file_name_of, clone_strings,
};

fn obj(fields: Vec<(&str, JVal)>) -> JVal {
    JVal::Obj(fields.into_iter().map(|(k, v)| (String::from(k), v)).collect())
}

fn entry(name: &str, path: &str, size: u64, kind: EntryKind, modified: Option<&str>) -> EntryInfo {
    EntryInfo {
        name: String::from(name),
        path: String::from(path),
        size,
        kind,
        modified_at: modified.map(String::from),
    }
}

#[test]
fn test_parse_list_files_params() {
    let params = obj(vec![
        ("path", JVal::Str(String::from("/home/u"))),
        ("recursive", JVal::Bool(true)),
        ("pattern", JVal::Str(String::from("*.md"))),
    ]);
    match parse_tool_request("list_files", &params) {
        Ok(ToolRequest::ListFiles(p)) => {
            assert_eq!(p.path, "/home/u");
            assert!(p.recursive);
            assert_eq!(p.pattern.as_deref(), Some("*.md"));
        }
        _ => panic!("list_files did not parse"),
    }
}

#[test]
fn test_parse_list_files_defaults() {
    let params = obj(vec![("path", JVal::Str(String::from("/home/u")))]);
    match parse_tool_request("list_files", &params) {
        Ok(ToolRequest::ListFiles(p)) => {
            assert!(!p.recursive);
            assert!(p.pattern.is_none());
        }
        _ => panic!("list_files did not parse"),
    }
}

#[test]
fn test_parse_list_files_missing_path() {
    let params = obj(vec![("recursive", JVal::Bool(true))]);
    assert_eq!(
        parse_tool_request("list_files", &params).err().unwrap(),
        "list_files requires 'path' parameter"
    );
}

#[test]
fn test_parse_search_files_params() {
    let params = obj(vec![
        ("query", JVal::Str(String::from("Report"))),
        ("search_content", JVal::Bool(true)),
        (
            "file_types",
            JVal::Arr(vec![JVal::Str(String::from("md")), JVal::Str(String::from("TXT"))]),
        ),
        ("limit", JVal::UInt(5)),
    ]);
    match parse_tool_request("search_files", &params) {
        Ok(ToolRequest::SearchFiles(p)) => {
            assert_eq!(p.query, "Report");
            assert!(p.path.is_none());
            assert!(p.search_content);
            assert_eq!(p.file_types, Some(vec![String::from("md"), String::from("TXT")]));
            assert_eq!(p.limit, 5);
        }
        _ => panic!("search_files did not parse"),
    }
}

#[test]
fn test_parse_search_files_default_limit() {
    let params = obj(vec![("query", JVal::Str(String::from("x")))]);
    match parse_tool_request("search_files", &params) {
        Ok(ToolRequest::SearchFiles(p)) => assert_eq!(p.limit, 20),
        _ => panic!("search_files did not parse"),
    }
}

#[test]
fn test_parse_search_files_mixed_type_list_dropped() {
    let params = obj(vec![
        ("query", JVal::Str(String::from("x"))),
        ("file_types", JVal::Arr(vec![JVal::Str(String::from("md")), JVal::UInt(3)])),
    ]);
    match parse_tool_request("search_files", &params) {
        Ok(ToolRequest::SearchFiles(p)) => assert!(p.file_types.is_none()),
        _ => panic!("search_files did not parse"),
    }
}

#[test]
fn test_parse_unknown_tool() {
    let params = obj(vec![]);
    assert_eq!(
        parse_tool_request("write_file", &params).err().unwrap(),
        "Unknown tool: write_file"
    );
}

#[test]
fn test_parse_read_file_and_file_info() {
    let params = obj(vec![
        ("path", JVal::Str(String::from("/home/u/a.txt"))),
        ("max_lines", JVal::UInt(3)),
    ]);
    match parse_tool_request("read_file", &params) {
        Ok(ToolRequest::ReadFile(p)) => {
            assert_eq!(p.path, "/home/u/a.txt");
            assert_eq!(p.max_lines, Some(3));
        }
        _ => panic!("read_file did not parse"),
    }
    match parse_tool_request("file_info", &params) {
        Ok(ToolRequest::FileInfo(p)) => assert_eq!(p.path, "/home/u/a.txt"),
        _ => panic!("file_info did not parse"),
    }
}

#[test]
fn test_list_files_silent_deny_filter() {
    let entries = vec![
        entry("u", "/home/u", 0, EntryKind::Directory, None),
        entry("report.md", "/home/u/report.md", 10, EntryKind::File, None),
        entry(".env", "/home/u/.env", 5, EntryKind::File, None),
        entry("config", "/home/u/.git/config", 7, EntryKind::File, None),
        entry("id_rsa", "/home/u/id_rsa", 9, EntryKind::File, None),
    ];
    let text = list_files_data(&None, "/home/u", &entries).unwrap();
    assert_eq!(
        text,
        "{\"files\":[{\"name\":\"report.md\",\"path\":\"/home/u/report.md\",\"size\":10,\"type\":\"file\",\"modified_at\":null}]}"
    );
}

#[test]
fn test_list_files_glob_filters_names() {
    let entries = vec![
        entry("a.md", "/d/a.md", 1, EntryKind::File, Some("2026-02-10T14:55:22+00:00")),
        entry("b.txt", "/d/b.txt", 2, EntryKind::File, None),
    ];
    let text = list_files_data(&Some(String::from("*.md")), "/d", &entries).unwrap();
    assert_eq!(
        text,
        "{\"files\":[{\"name\":\"a.md\",\"path\":\"/d/a.md\",\"size\":1,\"type\":\"file\",\"modified_at\":\"2026-02-10T14:55:22+00:00\"}]}"
    );
}

#[test]
fn test_list_files_invalid_glob() {
    let entries = Vec::new();
    let err = list_files_data(&Some(String::from("a[")), "/d", &entries).err().unwrap();
    assert!(err.starts_with("Invalid glob pattern: "));
}

#[test]
fn test_guarded_path_denied_errors() {
    let scopes = vec![Some(String::from("/home/u"))];
    let canonical: Result<String, String> = Ok(String::from("/home/u/.env"));
    let r = guarded_path("/home/u/.env", &canonical, &scopes);
    assert_eq!(r.err().unwrap(), "Access denied — sensitive file: /home/u/.env");
}

#[test]
fn test_size_cap_error_mentions_sizes() {
    let r = read_file_size_check(60 * 1024 * 1024, false);
    let msg = r.err().unwrap();
    assert!(msg.contains("60.0 MB"));
    assert!(msg.contains("50 MB"));
    assert_eq!(
        msg,
        "File too large (60.0 MB). Maximum is 50 MB. Use local_file_info for metadata."
    );
}

#[test]
fn test_size_cap_directory_error() {
    let r = read_file_size_check(10, true);
    assert_eq!(r.err().unwrap(), "Cannot read a directory. Use list_files instead.");
    assert!(read_file_size_check(50 * 1024 * 1024, false).is_ok());
}

#[test]
fn test_binary_detection_and_round_trip() {
    let bytes: Vec<u8> = vec![0x89, b'P', b'N', b'G', 0, 1, 2, 255];
    assert!(is_binary_chunk(&bytes));
    assert!(!is_binary_chunk(&vec![b'h', b'i']));

    let (text, transferred) = read_file_binary_data(&bytes);
    assert_eq!(transferred, bytes.len() as u64);
    let encoded = base64::engine::general_purpose::STANDARD.encode(&bytes);
    assert_eq!(text, format!("{{\"content\":\"{}\",\"encoding\":\"base64\"}}", encoded));
    let decoded = base64::engine::general_purpose::STANDARD.decode(&encoded).unwrap();
    assert_eq!(decoded, bytes);
}

#[test]
fn test_read_text_max_lines() {
    let content = "one\r\ntwo\nthree\n";
    let (text, transferred) = read_file_text_data(content, &Some(2));
    assert_eq!(text, "{\"content\":\"one\\ntwo\",\"encoding\":\"utf-8\"}");
    assert_eq!(transferred, content.len() as u64);
}

#[test]
fn test_read_text_whole() {
    let content = "héllo\nwörld";
    let (text, transferred) = read_file_text_data(content, &None);
    assert_eq!(text, "{\"content\":\"héllo\\nwörld\",\"encoding\":\"utf-8\"}");
    assert_eq!(transferred, content.len() as u64);
    assert_eq!(transferred, 13);
}

#[test]
fn test_search_names_limit_and_filter() {
    let entries = vec![
        entry("Report-a.md", "/u/Report-a.md", 1, EntryKind::File, None),
        entry("report-b.md", "/u/report-b.md", 1, EntryKind::File, None),
        entry("report-c.txt", "/u/report-c.txt", 1, EntryKind::File, None),
        entry("report-dir", "/u/report-dir", 1, EntryKind::Directory, None),
        entry("report.pem", "/u/report.pem", 1, EntryKind::File, None),
    ];
    let text = search_names_data("REPORT", &Some(vec![String::from("MD")]), 2, &entries);
    assert_eq!(
        text,
        "{\"results\":[{\"path\":\"/u/Report-a.md\",\"name\":\"Report-a.md\"},{\"path\":\"/u/report-b.md\",\"name\":\"report-b.md\"}]}"
    );
}

#[test]
fn test_search_names_folds_unicode_case() {
    let entries = vec![entry(
        "bericht-müller.md",
        "/u/bericht-müller.md",
        1,
        EntryKind::File,
        None,
    )];
    let text = search_names_data("MÜLLER", &None, 20, &entries);
    assert_eq!(
        text,
        "{\"results\":[{\"path\":\"/u/bericht-müller.md\",\"name\":\"bericht-müller.md\"}]}"
    );
}

#[test]
fn test_search_content_candidate_rules() {
    let small = entry("a.txt", "/u/a.txt", 100, EntryKind::File, None);
    let big = entry("b.txt", "/u/b.txt", 11 * 1024 * 1024, EntryKind::File, None);
    let denied = entry("id_rsa", "/u/id_rsa", 10, EntryKind::File, None);
    let dir = entry("d", "/u/d", 0, EntryKind::Directory, None);
    assert!(search_content_candidate(&small, &None));
    assert!(!search_content_candidate(&big, &None));
    assert!(!search_content_candidate(&denied, &None));
    assert!(!search_content_candidate(&dir, &None));
}

#[test]
fn test_content_match_context() {
    let lines = vec![
        String::from("nothing here"),
        String::from("the Needle sits here"),
        String::from("needle again"),
    ];
    let ctx = content_match_context(&lines, "NEEDLE").unwrap();
    assert_eq!(ctx, "L2: the Needle sits here");
    assert!(content_match_context(&lines, "absent").is_none());
}

#[test]
fn test_content_match_truncates_long_lines() {
    let long: String = std::iter::repeat('x').take(250).collect();
    let lines = vec![long.clone()];
    let ctx = content_match_context(&lines, "x").unwrap();
    let expected: String = format!("L1: {}…", &long[..200]);
    assert_eq!(ctx, expected);
}

#[test]
fn test_content_hit_and_wrap() {
    let e = entry("a.txt", "/u/a.txt", 5, EntryKind::File, None);
    let hit = search_content_hit(&e, "L1: x");
    assert_eq!(hit, "{\"path\":\"/u/a.txt\",\"name\":\"a.txt\",\"match_context\":\"L1: x\"}");
    let wrapped = wrap_results(&vec![hit.clone(), hit.clone()]);
    assert_eq!(wrapped, format!("{{\"results\":[{},{}]}}", hit, hit));
    assert_eq!(wrap_results(&Vec::new()), "{\"results\":[]}");
}

#[test]
fn test_search_roots_choice() {
    let scopes = vec![Some(String::from("/a"))];
    let folders = vec![String::from("/a"), String::from("/b")];
    let canonical: Result<String, String> = Ok(String::from("/a/sub"));
    let roots = search_roots(&Some(String::from("/a/sub")), &canonical, &scopes, &folders).unwrap();
    assert_eq!(roots, vec![String::from("/a/sub")]);
    let all = search_roots(&None, &canonical, &scopes, &folders).unwrap();
    assert_eq!(all, folders);
    let out: Result<String, String> = Ok(String::from("/c"));
    assert!(search_roots(&Some(String::from("/c")), &out, &scopes, &folders).is_err());
}

#[test]
fn test_file_info_data_text() {
    let stat = FileStat {
        size: 1234,
        kind: EntryKind::File,
        modified_at: Some(String::from("2026-02-10T14:55:22+00:00")),
        permissions: PermissionInfo::UnixMode(0o100644),
        is_readable: true,
    };
    let text = file_info_data("/home/u/report.md", &stat);
    assert_eq!(
        text,
        "{\"name\":\"report.md\",\"path\":\"/home/u/report.md\",\"size\":1234,\"type\":\"file\",\"modified_at\":\"2026-02-10T14:55:22+00:00\",\"permissions\":\"100644\",\"is_readable\":true}"
    );
}

#[test]
fn test_format_permissions() {
    assert_eq!(format_permissions(&PermissionInfo::UnixMode(0o644)), "644");
    assert_eq!(format_permissions(&PermissionInfo::UnixMode(0)), "0");
    assert_eq!(format_permissions(&PermissionInfo::ReadOnly(true)), "readonly");
    assert_eq!(format_permissions(&PermissionInfo::ReadOnly(false)), "read-write");
}

#[test]
fn test_file_name_of() {
    assert_eq!(file_name_of("/home/u/report.md"), "report.md");
    assert_eq!(file_name_of("/home/u/"), "u");
    assert_eq!(file_name_of("/"), "");
    assert_eq!(file_name_of("/a/.."), "");
}

#[test]
fn test_list_then_info_sizes_agree() {
    // The same filesystem view feeds both tools: their size fields agree.
    let listing = list_files_data(
        &None,
        "/d",
        &vec![entry("a.md", "/d/a.md", 42, EntryKind::File, Some("2026-01-01T00:00:00+00:00"))],
    )
    .unwrap();
    let stat = FileStat {
        size: 42,
        kind: EntryKind::File,
        modified_at: Some(String::from("2026-01-01T00:00:00+00:00")),
        permissions: PermissionInfo::UnixMode(0o644),
        is_readable: true,
    };
    let info = file_info_data("/d/a.md", &stat);
    assert!(listing.contains("\"size\":42"));
    assert!(info.contains("\"size\":42"));
    assert!(listing.contains("2026-01-01T00:00:00+00:00"));
    assert!(info.contains("2026-01-01T00:00:00+00:00"));
}

#[test]
fn test_clone_strings_copies() {
    let v = vec![String::from("a"), String::from("b")];
    assert_eq!(clone_strings(&v), v);
}
