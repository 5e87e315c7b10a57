use freddie::single_instance::{held_by, join_path, lock_path, pid_in_text, macos_state_dir, xdg_state_dir, Held, LockError, Pid};

#[test]
fn the_lock_path_is_absolute_and_named_for_its_app() {
    let dir = xdg_state_dir(None, Some("/home/someone"));
    let path = lock_path(dir.as_deref(), "mercury").expect("the test environment names a state directory");
    assert!(path.starts_with('/'));
    assert!(path.ends_with("mercury/mercury.lock"));
    assert_eq!(path, "/home/someone/.local/state/mercury/mercury.lock");
}

#[test]
fn on_macos_that_is_application_support() {
    let dir = macos_state_dir(Some("/Users/someone"));
    let path = lock_path(dir.as_deref(), "mercury").expect("the test environment sets HOME");
    assert!(path.ends_with("Library/Application Support/mercury/mercury.lock"));
}

#[test]
fn a_relative_state_directory_is_no_place_for_a_lock() {
    assert_eq!(lock_path(Some("state"), "mercury"), None);
    assert_eq!(lock_path(Some(""), "mercury"), None);
    assert_eq!(lock_path(None, "mercury"), None);
}

#[test]
fn an_absolute_app_name_replaces_the_state_directory() {
    assert_eq!(lock_path(Some("/home"), "/x"), Some("/x.lock".to_string()));
    assert_eq!(lock_path(Some("/home/"), "x"), Some("/home/x/x.lock".to_string()));
}

#[test]
fn a_joined_component_goes_after_one_separator() {
    assert_eq!(join_path("/a", "b"), "/a/b");
    assert_eq!(join_path("/a/", "b"), "/a/b");
    assert_eq!(join_path("", "b"), "b");
    assert_eq!(join_path("/a", "/b"), "/b");
    assert_eq!(join_path("/a", ""), "/a/");
}

#[test]
fn the_xdg_directory_wins_over_home() {
    assert_eq!(
        xdg_state_dir(Some("/var/state"), Some("/home/someone")),
        Some("/var/state".to_string())
    );
    assert_eq!(xdg_state_dir(None, None), None);
    assert_eq!(macos_state_dir(None), None);
}

#[test]
fn a_pid_file_names_its_holder_or_nobody() {
    assert_eq!(held_by(Some(77)), Held::By(Pid(77)));
    assert_eq!(held_by(None), Held::Unnamed);
    assert_eq!(Pid(34322).to_text(), "34322");
}

#[test]
fn lock_errors_say_what_went_wrong() {
    assert_eq!(
        LockError::AlreadyRunning("/s/m/m.lock".to_string()).message(),
        "another instance is already running (it holds /s/m/m.lock)"
    );
    assert_eq!(
        LockError::NoStateDir.message(),
        "no per-user directory to keep the lock file in; is HOME set?"
    );
    let unavailable = LockError::Unavailable(std::io::Error::other("disk gone")).message();
    assert_eq!(unavailable, "could not take the single-instance lock: disk gone");
}

#[test]
fn a_pid_file_reads_as_its_trimmed_number() {
    assert_eq!(pid_in_text("  42\n"), Some(42));
    assert_eq!(pid_in_text("+7"), Some(7));
    assert_eq!(pid_in_text("\u{3000}5\u{A0}"), Some(5));
    assert_eq!(pid_in_text("4294967295"), Some(u32::MAX));
    assert_eq!(pid_in_text("4294967296"), None);
    assert_eq!(pid_in_text(""), None);
    assert_eq!(pid_in_text("+"), None);
    assert_eq!(pid_in_text("-1"), None);
    assert_eq!(pid_in_text("12a"), None);
    assert_eq!(pid_in_text("1 2"), None);
}
