use rl_bc_uploader::config::{is_old_log, log_cutoff, Config, ConfigError};

fn s(x: &str) -> Option<String> {
    Some(x.to_string())
}

#[test]
fn defaults_fill_unset_settings() {
    let c = Config::from_env(s("TOKEN123"), s("C:\\Users\\me"), None, None, None, None).unwrap();
    assert_eq!(c.token, "TOKEN123");
    assert_eq!(
        c.demos_dir,
        vec!["C:\\Users\\me", "Documents", "My Games", "Rocket League", "TAGame", "Demos"]
    );
    assert_eq!(c.tcp_addr, "127.0.0.1:49123");
    assert_eq!(c.visibility, "private");
    assert_eq!(c.group, None);
    assert_eq!(c.watch_timeout_secs, 300);
}

#[test]
fn given_settings_are_used() {
    let c = Config::from_env(s("t"), s("/home/me"), s("10.0.0.2:5000"), s("public"), s("grp"), s("60"))
        .unwrap();
    assert_eq!(c.tcp_addr, "10.0.0.2:5000");
    assert_eq!(c.visibility, "public");
    assert_eq!(c.group.as_deref(), Some("grp"));
    assert_eq!(c.watch_timeout_secs, 60);
}

#[test]
fn empty_group_and_bad_timeout_fall_back() {
    let c = Config::from_env(s("t"), s("p"), None, s(""), s(""), s("ten")).unwrap();
    assert_eq!(c.group, None);
    assert_eq!(c.visibility, "");
    assert_eq!(c.watch_timeout_secs, 300);
}

#[test]
fn token_is_required() {
    assert!(matches!(Config::from_env(None, s("p"), None, None, None, None), Err(ConfigError::MissingToken)));
    assert!(matches!(
        Config::from_env(s("  \t "), s("p"), None, None, None, None),
        Err(ConfigError::MissingToken)
    ));
    assert!(matches!(Config::from_env(None, None, None, None, None, None), Err(ConfigError::MissingToken)));
}

#[test]
fn profile_folder_is_required() {
    assert!(matches!(
        Config::from_env(s("t"), None, None, None, None, None),
        Err(ConfigError::MissingUserProfile)
    ));
}

#[test]
fn logs_older_than_fourteen_days_go() {
    let day: i128 = 86_400_000_000_000;
    let now = 100 * day;
    let cutoff = log_cutoff(now).unwrap();
    assert_eq!(cutoff, 86 * day);
    assert!(is_old_log(true, Some(85 * day), cutoff));
    assert!(!is_old_log(true, Some(86 * day), cutoff));
    assert!(!is_old_log(false, Some(0), cutoff));
    assert!(!is_old_log(true, None, cutoff));
    assert_eq!(log_cutoff(i128::MIN), None);
}
