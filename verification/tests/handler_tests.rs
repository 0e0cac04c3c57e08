//! Tests of the key dispatcher and the commit pipeline.

use envelope::app::{ActiveList, App, CommitStatus};
use envelope::config::get_shell_vars;
use envelope::event::{KeyCode, KeyEvent};
use envelope::handler::{handle_key_events, write_to_config};

fn entries(pairs: &[(&str, &str)]) -> Vec<(String, String)> {
    pairs.iter().map(|(k, v)| (k.to_string(), v.to_string())).collect()
}

fn paths(dirs: &[&str]) -> Vec<String> {
    dirs.iter().map(|d| d.to_string()).collect()
}

fn test_app(env: &[(&str, &str)], dirs: &[&str]) -> App {
    App::new(
        entries(env),
        paths(dirs),
        ".bashrc".to_string(),
        Vec::new(),
        "/home/user/.bashrc".to_string(),
    )
}

fn key(code: KeyCode) -> KeyEvent {
    KeyEvent { code, control: false }
}

fn ctrl(code: KeyCode) -> KeyEvent {
    KeyEvent { code, control: true }
}

#[test]
fn test_write_to_config_path_list() {
    let config_var = "export PATH=$PATH:/new/path";
    let contents = write_to_config(config_var);
    assert_eq!(contents, format!("\n{}", config_var));
}

#[test]
fn test_write_to_config_env_list() {
    let config_var = "export NEW_VAR=value";
    let contents = write_to_config(config_var);
    assert_eq!(contents, format!("\n{}", config_var));
}

#[test]
fn test_write_to_config_multiple_writes() {
    let config_var1 = "export VAR1=value1";
    let config_var2 = "export VAR2=value2";
    let mut contents = String::new();
    contents.push_str(&write_to_config(config_var1));
    contents.push_str(&write_to_config(config_var2));
    assert_eq!(contents, format!("\n{}\n{}", config_var1, config_var2));
}

#[test]
fn env_edit_seeds_buffer() {
    // entering edit mode seeds the buffer with the selected entry's value,
    // so typed characters extend it
    let mut app = test_app(&[("A", "1"), ("B", "2")], &["/usr/bin"]);
    assert!(handle_key_events(key(KeyCode::Char('e')), &mut app).is_none());
    assert!(app.editing);
    assert_eq!(app.env_var_value, "1");
    for _ in 0..3 {
        assert!(handle_key_events(key(KeyCode::Char('9')), &mut app).is_none());
    }
    assert_eq!(app.env_var_value, "1999");
}

#[test]
fn env_commit_scenario() {
    // entries [("A","1"), ("B","2")], cursor at 0, active = EnvList;
    // e, clear the seeded "1", 9, 9, 9, Enter
    let mut app = test_app(&[("A", "1"), ("B", "2")], &["/usr/bin"]);
    assert!(handle_key_events(key(KeyCode::Char('e')), &mut app).is_none());
    assert!(handle_key_events(key(KeyCode::Backspace), &mut app).is_none());
    assert_eq!(app.env_var_value, "");
    for _ in 0..3 {
        assert!(handle_key_events(key(KeyCode::Char('9')), &mut app).is_none());
    }
    assert_eq!(app.env_var_value, "999");
    let r = handle_key_events(key(KeyCode::Enter), &mut app).expect("commit returns a result");
    assert_eq!(app.env_vars, entries(&[("A", "999"), ("B", "2")]));
    assert!(!app.editing);
    assert_eq!(app.env_var_value, "");
    assert_eq!(r.status, CommitStatus::Committed);
    assert!(r.new_path.is_none());
    assert_eq!(write_to_config(&r.config_line), "\nexport A=\"999\"\n");
}

#[test]
fn path_commit_scenario() {
    // PATH entries ["/usr/bin", "/bin"], cursor at 1, active = PathList;
    // e, Backspace x4 on the seeded buffer "/bin", type "/sbin", Enter
    let mut app = test_app(&[("A", "1")], &["/usr/bin", "/bin"]);
    assert!(handle_key_events(key(KeyCode::Tab), &mut app).is_none());
    assert_eq!(app.activated_list, ActiveList::PathList);
    assert!(handle_key_events(key(KeyCode::Down), &mut app).is_none());
    assert_eq!(app.selected_path_dir, 1);
    assert_eq!(app.path_var_value, "/bin");
    assert!(handle_key_events(key(KeyCode::Char('e')), &mut app).is_none());
    assert!(app.editing);
    assert_eq!(app.path_var_value, "/bin");
    for _ in 0..4 {
        assert!(handle_key_events(key(KeyCode::Backspace), &mut app).is_none());
    }
    assert_eq!(app.path_var_value, "");
    for c in "/sbin".chars() {
        assert!(handle_key_events(key(KeyCode::Char(c)), &mut app).is_none());
    }
    assert_eq!(app.path_var_value, "/sbin");
    let r = handle_key_events(key(KeyCode::Enter), &mut app).expect("commit returns a result");
    assert_eq!(app.path_var_dirs, paths(&["/usr/bin", "/sbin"]));
    assert!(!app.editing);
    assert_eq!(r.new_path.as_deref(), Some("/usr/bin:/sbin"));
    assert_eq!(r.status, CommitStatus::Committed);
    assert_eq!(write_to_config(&r.config_line), "\nexport PATH=$PATH:/sbin\n");
}

#[test]
fn duplicate_key_advisory() {
    // a key that already stands in the parsed config raises the advisory;
    // a never-seen key does not
    let shell_vars = get_shell_vars("export FOO=\"1\"\n");
    let mut app = App::new(
        entries(&[("FOO", "old"), ("BAR", "old")]),
        paths(&["/usr/bin"]),
        ".bashrc".to_string(),
        shell_vars,
        "/home/user/.bashrc".to_string(),
    );
    assert!(handle_key_events(key(KeyCode::Char('e')), &mut app).is_none());
    assert!(handle_key_events(key(KeyCode::Char('!')), &mut app).is_none());
    let r = handle_key_events(key(KeyCode::Enter), &mut app).expect("commit returns a result");
    assert_eq!(r.status, CommitStatus::DuplicateKey);
    assert!(app.overwrite);

    let shell_vars = get_shell_vars("export FOO=\"1\"\n");
    let mut app = App::new(
        entries(&[("BAR", "old")]),
        paths(&["/usr/bin"]),
        ".bashrc".to_string(),
        shell_vars,
        "/home/user/.bashrc".to_string(),
    );
    assert!(handle_key_events(key(KeyCode::Char('e')), &mut app).is_none());
    let r = handle_key_events(key(KeyCode::Enter), &mut app).expect("commit returns a result");
    assert_eq!(r.status, CommitStatus::Committed);
    assert!(!app.overwrite);
}

#[test]
fn quit_keys() {
    let mut app = test_app(&[("A", "1")], &["/usr/bin"]);
    assert!(handle_key_events(key(KeyCode::Char('q')), &mut app).is_none());
    assert!(!app.running);

    let mut app = test_app(&[("A", "1")], &["/usr/bin"]);
    assert!(handle_key_events(key(KeyCode::Esc), &mut app).is_none());
    assert!(!app.running);

    let mut app = test_app(&[("A", "1")], &["/usr/bin"]);
    assert!(handle_key_events(ctrl(KeyCode::Char('c')), &mut app).is_none());
    assert!(!app.running);

    // Ctrl-C quits even while editing
    let mut app = test_app(&[("A", "1")], &["/usr/bin"]);
    handle_key_events(key(KeyCode::Char('e')), &mut app);
    assert!(handle_key_events(ctrl(KeyCode::Char('C')), &mut app).is_none());
    assert!(!app.running);
}

#[test]
fn escape_cancels_while_editing() {
    let mut app = test_app(&[("A", "1"), ("B", "2")], &["/usr/bin"]);
    let before_env = app.env_vars.clone();
    let before_dirs = app.path_var_dirs.clone();
    handle_key_events(key(KeyCode::Char('e')), &mut app);
    handle_key_events(key(KeyCode::Char('x')), &mut app);
    handle_key_events(key(KeyCode::Esc), &mut app);
    assert!(app.running);
    assert!(!app.editing);
    assert_eq!(app.env_vars, before_env);
    assert_eq!(app.path_var_dirs, before_dirs);
    assert_eq!(app.env_var_value, "");
}

#[test]
fn toggle_twice_returns_to_start() {
    let mut app = test_app(&[("A", "1")], &["/usr/bin"]);
    assert_eq!(app.activated_list, ActiveList::EnvList);
    assert_eq!(app.list_index, 0);
    handle_key_events(key(KeyCode::Tab), &mut app);
    assert_eq!(app.activated_list, ActiveList::PathList);
    assert_eq!(app.list_index, 1);
    handle_key_events(key(KeyCode::Tab), &mut app);
    assert_eq!(app.activated_list, ActiveList::EnvList);
    assert_eq!(app.list_index, 0);
}

#[test]
fn navigation_clamps_at_boundaries() {
    let mut app = test_app(&[("A", "1"), ("B", "2")], &["/usr/bin", "/bin"]);
    // moving up from the first entry is a no-op
    handle_key_events(key(KeyCode::Up), &mut app);
    assert_eq!(app.selected_env_var, 0);
    // moving past the last entry is a no-op
    handle_key_events(key(KeyCode::Down), &mut app);
    assert_eq!(app.selected_env_var, 1);
    handle_key_events(key(KeyCode::Down), &mut app);
    assert_eq!(app.selected_env_var, 1);
    // the inactive list's cursor never moved
    assert_eq!(app.selected_path_dir, 0);
}

#[test]
fn navigation_disabled_while_editing() {
    let mut app = test_app(&[("A", "1"), ("B", "2")], &["/usr/bin", "/bin"]);
    handle_key_events(key(KeyCode::Char('e')), &mut app);
    handle_key_events(key(KeyCode::Down), &mut app);
    assert_eq!(app.selected_env_var, 0);
    handle_key_events(key(KeyCode::Tab), &mut app);
    assert_eq!(app.activated_list, ActiveList::EnvList);
}

#[test]
fn keystrokes_stay_in_active_buffer() {
    let mut app = test_app(&[("A", "1")], &["/usr/bin"]);
    let path_buffer_before = app.path_var_value.clone();
    handle_key_events(key(KeyCode::Char('e')), &mut app);
    handle_key_events(key(KeyCode::Char('z')), &mut app);
    assert_eq!(app.env_var_value, "1z");
    assert_eq!(app.path_var_value, path_buffer_before);
}

#[test]
fn backspace_on_empty_buffer_is_noop() {
    let mut app = test_app(&[("A", "")], &["/usr/bin"]);
    handle_key_events(key(KeyCode::Char('e')), &mut app);
    assert_eq!(app.env_var_value, "");
    handle_key_events(key(KeyCode::Backspace), &mut app);
    assert_eq!(app.env_var_value, "");
    assert!(app.running);
    assert!(app.editing);
}

#[test]
fn characters_ignored_while_browsing() {
    let mut app = test_app(&[("A", "1")], &["/usr/bin"]);
    handle_key_events(key(KeyCode::Char('x')), &mut app);
    assert_eq!(app.env_var_value, "");
    assert_eq!(app.env_vars, entries(&[("A", "1")]));
    assert!(app.running);
}

#[test]
fn cursors_stay_in_range_over_long_sequences() {
    let mut app = test_app(&[("A", "1"), ("B", "2"), ("C", "3")], &["/usr/bin", "/bin"]);
    let codes = [
        KeyCode::Down,
        KeyCode::Down,
        KeyCode::Down,
        KeyCode::Down,
        KeyCode::Tab,
        KeyCode::Down,
        KeyCode::Down,
        KeyCode::Up,
        KeyCode::Up,
        KeyCode::Up,
        KeyCode::Tab,
        KeyCode::Up,
        KeyCode::Down,
    ];
    for code in codes {
        handle_key_events(key(code), &mut app);
        assert!(app.selected_env_var < app.env_vars.len());
        assert!(app.selected_path_dir < app.path_var_dirs.len());
    }
    assert_eq!(app.selected_env_var, 2);
    assert_eq!(app.selected_path_dir, 0);
}

#[test]
fn selected_value_follows_cursor() {
    let mut app = test_app(&[("A", "1"), ("B", "2")], &["/usr/bin"]);
    assert_eq!(app.selected_value(), "1");
    handle_key_events(key(KeyCode::Down), &mut app);
    assert_eq!(app.selected_value(), "2");
}
