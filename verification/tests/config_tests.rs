//! Tests of shell-configuration parsing, key normalization and line
//! formatting.

use envelope::config::{
    contains_key, format_env_line, format_path_line, get_shell_vars, join_path_entries,
    normalize_key_str,
};

#[test]
fn parses_export_lines() {
    let contents = "export FOO=\"1\"\nalias ll=ls\nexport BAR=baz=qux\nexport NOEQ\nplain\n";
    let vars = get_shell_vars(contents);
    assert_eq!(
        vars,
        vec![
            ("FOO".to_string(), "\"1\"".to_string()),
            ("BAR".to_string(), "baz=qux".to_string()),
        ]
    );
}

#[test]
fn parses_empty_contents() {
    assert_eq!(get_shell_vars(""), Vec::<(String, String)>::new());
}

#[test]
fn parse_keeps_file_order() {
    let contents = "export B=2\nexport A=1";
    let vars = get_shell_vars(contents);
    assert_eq!(
        vars,
        vec![("B".to_string(), "2".to_string()), ("A".to_string(), "1".to_string())]
    );
}

#[test]
fn normalizes_keys() {
    assert_eq!(normalize_key_str("foo"), "FOO");
    assert_eq!(normalize_key_str("\"foo\""), "FOO");
    assert_eq!(normalize_key_str("\"\"Path2\"\""), "PATH2");
    assert_eq!(normalize_key_str(""), "");
    assert_eq!(normalize_key_str("\"\""), "");
}

#[test]
fn formats_env_line() {
    assert_eq!(format_env_line("A", "999"), "export A=\"999\"\n");
    assert_eq!(format_env_line("KEY", ""), "export KEY=\"\"\n");
}

#[test]
fn formats_path_line() {
    assert_eq!(format_path_line("/sbin"), "export PATH=$PATH:/sbin\n");
}

#[test]
fn looks_up_parsed_keys() {
    let vars = get_shell_vars("export FOO=1\nexport BAR=2\n");
    assert!(contains_key(&vars, &"FOO".to_string()));
    assert!(contains_key(&vars, &"BAR".to_string()));
    assert!(!contains_key(&vars, &"BAZ".to_string()));
    // lookup is exact: values do not match names
    assert!(!contains_key(&vars, &"1".to_string()));
}

#[test]
fn joins_path_entries() {
    let dirs = vec!["/usr/bin".to_string(), "/bin".to_string(), "/sbin".to_string()];
    assert_eq!(join_path_entries(&dirs), "/usr/bin:/bin:/sbin");
    assert_eq!(join_path_entries(&vec!["/only".to_string()]), "/only");
}
