use lookout_g::Config;

#[test]
fn test_config_build_success() {
    let args = vec![
        "program_name".to_string(),
        "https://example.com/calendar.ics".to_string(),
        "MyCalendar".to_string(),
        "path/to/credentials.json".to_string(),
    ];
    let config = Config::build(args.into_iter()).unwrap();
    assert_eq!(config.ics_url, "https://example.com/calendar.ics");
    assert_eq!(config.google_calendar_name, "MyCalendar");
    assert_eq!(config.google_credentials_path, "path/to/credentials.json");
}

#[test]
fn test_config_build_missing_args() {
    let args = vec![
        "program_name".to_string(),
        "https://example.com/calendar.ics".to_string(),
    ];
    let result = Config::build(args.into_iter());
    assert!(result.is_ok());
    assert_eq!(result.unwrap().google_calendar_name, "Test");
}

#[test]
fn config_defaults_fill_both_optional_settings() {
    let args = vec!["prog".to_string(), "u".to_string()];
    let config = Config::build(args.into_iter()).unwrap();
    assert_eq!(config.ics_url, "u");
    assert_eq!(config.google_calendar_name, "Test");
    assert_eq!(config.google_credentials_path, "credentials.json");
}

#[test]
fn config_default_credentials_with_named_calendar() {
    let args = vec!["prog".to_string(), "u".to_string(), "Work".to_string()];
    let config = Config::build(args.into_iter()).unwrap();
    assert_eq!(config.google_calendar_name, "Work");
    assert_eq!(config.google_credentials_path, "credentials.json");
}

#[test]
fn config_without_url_is_refused() {
    let only_name = vec!["prog".to_string()];
    assert_eq!(Config::build(only_name.into_iter()), Err("Didn't get an ICS URL string"));
    let nothing: Vec<String> = Vec::new();
    assert_eq!(Config::build(nothing.into_iter()), Err("Didn't get an ICS URL string"));
}

#[test]
fn config_ignores_further_arguments() {
    let args = vec![
        "prog".to_string(),
        "u".to_string(),
        "Work".to_string(),
        "c.json".to_string(),
        "extra".to_string(),
    ];
    let config = Config::build(args.into_iter()).unwrap();
    assert_eq!(config.ics_url, "u");
    assert_eq!(config.google_calendar_name, "Work");
    assert_eq!(config.google_credentials_path, "c.json");
}
