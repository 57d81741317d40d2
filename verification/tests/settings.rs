use rs_fast_mcp::settings::{parse_tag_list, LogLevel, Settings, SettingsSources};

fn sources() -> SettingsSources {
    SettingsSources {
        host: None,
        port: None,
        debug: None,
        log_level: None,
        client_init_timeout: None,
        include_tags: None,
        exclude_tags: None,
        secret_files: vec![],
    }
}

#[test]
fn test_load_defaults() {
    let settings = Settings::from_sources(sources());
    assert_eq!(settings.host, "127.0.0.1");
    assert_eq!(settings.port, 3000);
    assert!(!settings.debug);
}

#[test]
fn test_load_from_env() {
    let src = SettingsSources {
        host: Some("0.0.0.0".to_string()),
        port: Some("8080".to_string()),
        debug: Some("true".to_string()),
        log_level: Some("debug".to_string()),
        ..sources()
    };
    let settings = Settings::from_sources(src);
    assert_eq!(settings.host, "0.0.0.0");
    assert_eq!(settings.port, 8080);
    assert!(settings.debug);
    assert!(matches!(settings.log_level, LogLevel::Debug));
}

#[test]
fn test_load_secrets() {
    let src = SettingsSources {
        secret_files: vec![("api_key".to_string(), "super_secret_value".to_string())],
        ..sources()
    };
    let settings = Settings::from_sources(src);
    assert_eq!(settings.secrets.get("api_key").map(|s| s.as_str()), Some("super_secret_value"));
}

#[test]
fn bad_values_keep_defaults() {
    let src = SettingsSources {
        port: Some("70000".to_string()),
        debug: Some("yes".to_string()),
        log_level: Some("loud".to_string()),
        client_init_timeout: Some("-5".to_string()),
        ..sources()
    };
    let settings = Settings::from_sources(src);
    assert_eq!(settings.port, 3000);
    assert!(!settings.debug);
    assert_eq!(settings.log_level, LogLevel::Info);
    assert!(settings.client_init_timeout.is_none());
}

#[test]
fn debug_flag_forms_and_timeout() {
    let s1 = Settings::from_sources(SettingsSources { debug: Some("TRUE".to_string()), ..sources() });
    assert!(s1.debug);
    let s2 = Settings::from_sources(SettingsSources { debug: Some("1".to_string()), ..sources() });
    assert!(s2.debug);
    let s3 = Settings::from_sources(SettingsSources {
        client_init_timeout: Some("30".to_string()),
        port: Some("65535".to_string()),
        ..sources()
    });
    assert_eq!(s3.client_init_timeout, Some(30));
    assert_eq!(s3.port, 65535);
}

#[test]
fn secrets_are_trimmed_and_later_files_win() {
    let src = SettingsSources {
        secret_files: vec![
            ("k".to_string(), "  first \n".to_string()),
            ("k".to_string(), "second\n".to_string()),
            ("j".to_string(), "other".to_string()),
        ],
        ..sources()
    };
    let settings = Settings::from_sources(src);
    assert_eq!(settings.secrets.get("k").map(|s| s.as_str()), Some("second"));
    assert_eq!(settings.secrets.get("j").map(|s| s.as_str()), Some("other"));
    assert_eq!(settings.secrets.len(), 2);
}

#[test]
fn tag_lists_are_split_and_trimmed() {
    assert_eq!(parse_tag_list(" a, b ,,c "), vec!["a".to_string(), "b".to_string(), "c".to_string()]);
    assert!(parse_tag_list("").is_empty());
    let s = Settings::from_sources(SettingsSources {
        include_tags: Some("x,y".to_string()),
        exclude_tags: Some("z".to_string()),
        ..sources()
    });
    assert_eq!(s.include_tags, vec!["x".to_string(), "y".to_string()]);
    assert_eq!(s.exclude_tags, vec!["z".to_string()]);
}

#[test]
fn log_level_parsing() {
    assert_eq!(LogLevel::parse("WARN"), Ok(LogLevel::Warn));
    assert_eq!(LogLevel::parse("error"), Ok(LogLevel::Error));
    assert_eq!(LogLevel::parse("Info"), Ok(LogLevel::Info));
    assert_eq!(LogLevel::parse("verbose"), Err("Invalid log level: verbose".to_string()));
    assert_eq!("debug".parse::<LogLevel>(), Ok(LogLevel::Debug));
}

#[test]
fn new_settings_are_default() {
    let s = Settings::new();
    assert_eq!(s.host, "127.0.0.1");
    assert_eq!(s.port, 3000);
    assert_eq!(s.log_level, LogLevel::Info);
    assert!(s.include_tags.is_empty() && s.exclude_tags.is_empty());
}
