use beakr_core::security::{is_denied, is_path_prefix, validate_path, SecurityError};

#[test]
fn test_env_file_denied() {
    assert!(is_denied("/home/user/project/.env"));
    assert!(is_denied("/home/user/project/.env.local"));
    assert!(is_denied("/home/user/project/.env.production"));
}

#[test]
fn test_key_files_denied() {
    assert!(is_denied("/home/user/.ssh/id_rsa"));
    assert!(is_denied("/home/user/.ssh/id_ed25519"));
    assert!(is_denied("/home/user/cert.pem"));
    assert!(is_denied("/home/user/key.p12"));
}

#[test]
fn test_denied_directories() {
    assert!(is_denied("/project/.git/config"));
    assert!(is_denied("/project/node_modules/pkg/index.js"));
    assert!(is_denied("/home/user/.ssh/known_hosts"));
    assert!(is_denied("/home/user/.aws/credentials"));
}

#[test]
fn test_normal_files_allowed() {
    assert!(!is_denied("/home/user/document.pdf"));
    assert!(!is_denied("/home/user/project/src/main.rs"));
    assert!(!is_denied("/home/user/notes.txt"));
}

#[test]
fn test_denied_exact_names_case_insensitive() {
    assert!(is_denied("/home/user/.gitconfig"));
    assert!(is_denied("/home/user/Credentials.JSON"));
    assert!(is_denied("/home/user/service-account.json"));
    assert!(is_denied("/home/user/SECRET.PEM"));
}

#[test]
fn test_denied_directory_names_case_sensitive() {
    // Directory components are compared as they are; only file names are
    // lowercased first.
    assert!(!is_denied("/project/.GIT/config"));
    assert!(is_denied("/project/.git/config"));
}

#[test]
fn test_component_prefix_not_text_prefix() {
    assert!(is_path_prefix("/a/b", "/a/b/c"));
    assert!(is_path_prefix("/a/b", "/a/b"));
    assert!(!is_path_prefix("/a/b", "/a/bc"));
    assert!(!is_path_prefix("/a/b", "/a"));
    assert!(is_path_prefix("/a/b/", "/a/b/c"));
}

#[test]
fn test_validate_path_in_scope() {
    let scopes = vec![Some(String::from("/tmp/ok"))];
    let canonical: Result<String, String> = Ok(String::from("/tmp/ok/file.txt"));
    let r = validate_path("/tmp/ok/file.txt", &canonical, &scopes);
    assert_eq!(r.ok(), Some(String::from("/tmp/ok/file.txt")));
}

#[test]
fn test_validate_path_empty_scope() {
    let scopes: Vec<Option<String>> = Vec::new();
    let canonical: Result<String, String> = Ok(String::from("/tmp/ok/file.txt"));
    let r = validate_path("/tmp/ok/file.txt", &canonical, &scopes);
    match r {
        Err(e) => assert_eq!(e.message(), "Path is outside scoped folders: No scoped folders configured"),
        Ok(_) => panic!("an empty scope admitted a path"),
    }
}

#[test]
fn test_validate_path_skips_unresolvable_scope_entries() {
    let scopes = vec![None, Some(String::from("/tmp/ok"))];
    let canonical: Result<String, String> = Ok(String::from("/tmp/ok/file.txt"));
    let r = validate_path("/tmp/ok/file.txt", &canonical, &scopes);
    assert!(r.is_ok());
}

#[test]
fn test_validate_path_resolution_failure() {
    let scopes = vec![Some(String::from("/tmp/ok"))];
    let canonical: Result<String, String> = Err(String::from("No such file or directory (os error 2)"));
    let r = validate_path("/tmp/ok/missing", &canonical, &scopes);
    match r {
        Err(e) => assert_eq!(
            e.message(),
            "Path resolution failed: /tmp/ok/missing: No such file or directory (os error 2)"
        ),
        Ok(_) => panic!("an unresolved path was admitted"),
    }
}

#[test]
fn test_symlink_escape_refused() {
    // The requested path sits textually inside the scope, but resolving its
    // symlink lands outside; the canonical form decides.
    let scopes = vec![Some(String::from("/tmp/ok"))];
    let canonical: Result<String, String> = Ok(String::from("/etc/passwd"));
    let r = validate_path("/tmp/ok/link/passwd", &canonical, &scopes);
    match r {
        Err(e) => assert_eq!(e.message(), "Path is outside scoped folders: /etc/passwd"),
        Ok(_) => panic!("a symlink escape was admitted"),
    }
}

#[test]
fn test_security_error_messages() {
    assert_eq!(
        SecurityError::DeniedFile(String::from("/x/.env")).message(),
        "Access denied — sensitive file: /x/.env"
    );
    assert_eq!(
        SecurityError::OutOfScope(String::from("/etc")).message(),
        "Path is outside scoped folders: /etc"
    );
    assert_eq!(
        SecurityError::ResolutionFailed(String::from("boom")).message(),
        "Path resolution failed: boom"
    );
}
