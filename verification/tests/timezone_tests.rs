use lookout_g::timezone::{find_tzid, map_timezone_name, resolve_params, resolve_timezone, Zone};

#[test]
fn every_alias_resolves_to_its_identifier() {
    let table = [
        ("Central America Standard Time", "America/Guatemala"),
        ("Central Europe Standard Time", "Europe/Berlin"),
        ("Central Standard Time", "America/Chicago"),
        ("Eastern Standard Time", "America/New_York"),
        ("GMT Standard Time", "Europe/London"),
        ("Greenwich Standard Time", "Etc/GMT"),
        ("Mountain Standard Time", "America/Denver"),
        ("Pacific Standard Time", "America/Los_Angeles"),
        ("Romance Standard Time", "Europe/Paris"),
        ("SA Pacific Standard Time", "America/Bogota"),
        ("US Mountain Standard Time", "America/Phoenix"),
        ("UTC", "UTC"),
        ("W. Europe Standard Time", "Europe/Berlin"),
    ];
    for (alias, identifier) in table {
        assert_eq!(resolve_timezone(alias), Some(identifier.to_string()), "{}", alias);
    }
}

#[test]
fn alias_table_names_the_zone() {
    assert_eq!(map_timezone_name("Romance Standard Time"), Some(Zone::Paris));
    assert_eq!(map_timezone_name("W. Europe Standard Time"), Some(Zone::Berlin));
    assert_eq!(map_timezone_name("Central Europe Standard Time"), Some(Zone::Berlin));
    assert_eq!(map_timezone_name("Greenwich Standard Time"), Some(Zone::Gmt));
    assert_eq!(map_timezone_name("Europe/Paris"), None);
}

#[test]
fn unknown_alias_is_unresolved() {
    for alias in ["", "utc", "Utc", "romance standard time", "Romance Standard Time ", "CET",
        "Europe/Paris"]
    {
        assert_eq!(resolve_timezone(alias), None, "{:?}", alias);
    }
}

#[test]
fn resolution_gives_the_same_answer_every_time() {
    for alias in ["Romance Standard Time", "UTC", "nowhere"] {
        let first = resolve_timezone(alias);
        let second = resolve_timezone(&alias.to_string());
        assert_eq!(first, second);
    }
}

#[test]
fn tzid_is_the_first_value_of_the_first_tzid_parameter() {
    let params = vec![
        ("VALUE".to_string(), vec!["DATE-TIME".to_string()]),
        ("TZID".to_string(), vec!["UTC".to_string(), "Romance Standard Time".to_string()]),
        ("TZID".to_string(), vec!["GMT Standard Time".to_string()]),
    ];
    assert_eq!(find_tzid(&params), Some("UTC".to_string()));
    assert_eq!(resolve_params(&Some(params)), Some("UTC".to_string()));
}

#[test]
fn tzid_without_a_value_is_passed_over() {
    let params = vec![
        ("TZID".to_string(), Vec::new()),
        ("TZID".to_string(), vec!["GMT Standard Time".to_string()]),
    ];
    assert_eq!(find_tzid(&params), Some("GMT Standard Time".to_string()));
    assert_eq!(resolve_params(&Some(params)), Some("Europe/London".to_string()));
    assert_eq!(find_tzid(&vec![("TZID".to_string(), Vec::new())]), None);
}

#[test]
fn tzid_key_matches_exactly() {
    let params = vec![("tzid".to_string(), vec!["UTC".to_string()])];
    assert_eq!(find_tzid(&params), None);
    assert_eq!(resolve_params(&Some(params)), None);
}

#[test]
fn no_parameters_means_no_zone() {
    assert_eq!(resolve_params(&None), None);
    assert_eq!(resolve_params(&Some(Vec::new())), None);
    assert_eq!(find_tzid(&Vec::new()), None);
}
