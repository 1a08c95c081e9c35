use rusty_libimobiledevice::list_apps::{
    app_line, app_lines, device_choice, keep_app, missing_udid_value, parse_args, AppEntry,
    Command, DeviceChoice,
};

fn args(list: &[&str]) -> Vec<String> {
    list.iter().map(|s| s.to_string()).collect()
}

#[test]
fn no_arguments_lists_user_apps_of_first_device() {
    assert_eq!(
        parse_args(&args(&["idevicelistapps"])),
        Command::Run { udid: String::new(), all: false }
    );
}

#[test]
fn udid_and_all_flags() {
    assert_eq!(
        parse_args(&args(&["idevicelistapps", "-u", "abc", "-a"])),
        Command::Run { udid: "abc".to_string(), all: true }
    );
    assert_eq!(
        parse_args(&args(&["idevicelistapps", "--all", "--udid", "xyz"])),
        Command::Run { udid: "xyz".to_string(), all: true }
    );
}

#[test]
fn later_udid_wins() {
    assert_eq!(
        parse_args(&args(&["p", "-u", "one", "-u", "two"])),
        Command::Run { udid: "two".to_string(), all: false }
    );
}

#[test]
fn udid_value_may_look_like_a_flag() {
    assert_eq!(
        parse_args(&args(&["p", "-u", "-h"])),
        Command::Run { udid: "-h".to_string(), all: false }
    );
}

#[test]
fn help_and_version_stop_reading() {
    assert_eq!(parse_args(&args(&["p", "-h", "--bogus"])), Command::Help);
    assert_eq!(parse_args(&args(&["p", "--help"])), Command::Help);
    assert_eq!(parse_args(&args(&["p", "-v"])), Command::Version);
    assert_eq!(parse_args(&args(&["p", "-a", "--version", "-u"])), Command::Version);
}

#[test]
fn unknown_flag_is_reported() {
    assert_eq!(
        parse_args(&args(&["p", "-x", "-h"])),
        Command::UnknownFlag("-x".to_string())
    );
    assert_eq!(parse_args(&args(&["p", "-"])), Command::UnknownFlag("-".to_string()));
}

#[test]
fn positional_arguments_are_ignored() {
    assert_eq!(
        parse_args(&args(&["p", "extra", "", "-a"])),
        Command::Run { udid: String::new(), all: true }
    );
}

#[test]
fn trailing_udid_flag_is_detected() {
    assert!(missing_udid_value(&args(&["p", "-u"])));
    assert!(missing_udid_value(&args(&["p", "-a", "--udid"])));
    assert!(!missing_udid_value(&args(&["p", "-h", "-u"])));
    assert!(!missing_udid_value(&args(&["p", "-u", "x"])));
    assert!(!missing_udid_value(&args(&["p"])));
}

#[test]
fn device_choice_for_udid() {
    assert_eq!(device_choice(""), DeviceChoice::First);
    assert_eq!(device_choice("abc"), DeviceChoice::Udid("abc".to_string()));
}

#[test]
fn system_apps_are_kept_only_with_all() {
    assert!(!keep_app("com.apple.mobilesafari", false));
    assert!(keep_app("com.apple.mobilesafari", true));
    assert!(keep_app("org.example.app", false));
    assert!(!keep_app("net.com.apple.clone", false));
    assert!(keep_app("com.appl", false));
    assert!(keep_app("", false));
}

#[test]
fn app_line_format() {
    assert_eq!(app_line("Safari", "com.apple.mobilesafari"), "Safari: com.apple.mobilesafari");
    assert_eq!(app_line("", ""), ": ");
}

fn entry(name: &str, id: &str) -> AppEntry {
    AppEntry { bundle_id: id.to_string(), display_name: name.to_string() }
}

#[test]
fn app_lines_filter_and_keep_order() {
    let apps = vec![
        entry("Safari", "com.apple.mobilesafari"),
        entry("Signal", "org.whispersystems.signal"),
        entry("Notes", "com.apple.mobilenotes"),
        entry("Game", "com.example.game"),
    ];
    assert_eq!(
        app_lines(&apps, false),
        vec!["Signal: org.whispersystems.signal".to_string(), "Game: com.example.game".to_string()]
    );
    assert_eq!(app_lines(&apps, true).len(), 4);
    assert_eq!(app_lines(&apps, true)[2], "Notes: com.apple.mobilenotes");
    assert!(app_lines(&[], false).is_empty());
}
