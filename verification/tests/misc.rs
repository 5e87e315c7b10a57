use freddie::app_nav::{foreground_outcome, open_args, NavError};
use freddie::event_socket::origin_allowed;
use freddie::instance::{Instance, NoUserDir, UserDirs};
use freddie::windows_types::WindowError;

#[test]
fn open_args_are_dash_b_bundle_id() {
    assert_eq!(open_args("com.google.Chrome"), ["-b", "com.google.Chrome"]);
    assert_eq!(open_args("dev.zed.Zed"), ["-b", "dev.zed.Zed"]);
}

#[test]
fn a_failed_open_is_reported() {
    assert!(foreground_outcome(true).is_ok());
    assert!(matches!(foreground_outcome(false), Err(NavError::Failed)));
    assert_eq!(
        NavError::Failed.message(),
        "`open` reported failure (app missing or activation refused)"
    );
    assert_eq!(
        NavError::Spawn(std::io::Error::other("no such file")).message(),
        "could not run `open`: no such file"
    );
}

#[test]
fn web_origins_are_refused_and_others_are_not() {
    for allowed in [None, Some("chrome-extension://abcdef"), Some("file://")] {
        assert!(origin_allowed(allowed), "{allowed:?} should connect");
    }
    for refused in [
        "https://evil.com",
        "http://evil.com",
        "http://localhost:3000",
        "http://127.0.0.1:8797",
    ] {
        assert!(!origin_allowed(Some(refused)), "{refused} should not connect");
    }
}

fn dirs() -> UserDirs {
    UserDirs {
        state: Some("/Users/someone/Library/Application Support".to_string()),
        home: Some("/Users/someone".to_string()),
    }
}

#[test]
fn a_global_instance_is_named_for_its_app() {
    let instance = Instance::global("testapp", &dirs()).expect("HOME is set in a test run");
    assert_eq!(instance.slug(), "testapp");
    assert_eq!(instance.display_name(), "testapp");
    assert_eq!(instance.log_file_name(), "testapp.log");
    assert!(instance.lock_file().ends_with("testapp/testapp.lock"));
    assert_eq!(instance.log_dir(), "/Users/someone/Library/Logs/testapp");
    assert_eq!(instance.log_file(), "/Users/someone/Library/Logs/testapp/testapp.log");
}

#[test]
fn two_instances_share_no_file() {
    let a = Instance::named("testapp", "testapp-a".to_string(), "./a.json".to_string(), &dirs())
        .expect("HOME is set");
    let b = Instance::named("testapp", "testapp-b".to_string(), "./b.json".to_string(), &dirs())
        .expect("HOME is set");
    assert_ne!(a.lock_file(), b.lock_file());
    assert_ne!(a.log_file(), b.log_file());
    assert_eq!(a.log_dir(), b.log_dir());
}

#[test]
fn the_display_name_is_what_was_typed() {
    let instance = Instance::named("testapp", "testapp-a".to_string(), "./a.json".to_string(), &dirs())
        .expect("HOME is set");
    assert_eq!(instance.display_name(), "./a.json");
}

#[test]
fn no_home_is_no_instance() {
    let nowhere = UserDirs { state: None, home: Some("/home/x".to_string()) };
    assert!(Instance::global("mercury", &nowhere).is_err());
    let homeless = UserDirs { state: Some("/s".to_string()), home: None };
    assert!(Instance::global("mercury", &homeless).is_err());
    assert_eq!(
        NoUserDir.message(),
        "no per-user directory to keep the lock and the log in; is HOME set?"
    );
}

#[test]
fn window_errors_say_what_went_wrong() {
    assert_eq!(WindowError::NotTrusted.message(), "Accessibility is not granted");
    assert_eq!(WindowError::NotWatching.message(), "not watching windows");
    assert_eq!(
        WindowError::NotMainThread.message(),
        "freddie_windows::watch must run on the main thread"
    );
}
