use constellation_standalone::config::{
    candidate_paths, component_env_name, config_dir_env, config_dirs, default_log_config_files,
    home_config_subdir, join_path, scan_decision, system_config_dir, ProbeOutcome, ScanDecision,
};

#[test]
fn env_name_upper_cases_component() {
    assert_eq!(component_env_name("test"), "CONSTELLATION_TEST_CONF_DIR");
    assert_eq!(component_env_name("my-svc"), "CONSTELLATION_MY-SVC_CONF_DIR");
    assert_eq!(component_env_name(""), "CONSTELLATION__CONF_DIR");
}

#[test]
fn constants_match_documented_defaults() {
    assert_eq!(config_dir_env(), "CONSTELLATION_CONF_DIR");
    assert_eq!(system_config_dir(), "/usr/local/etc/constellation/");
    assert_eq!(home_config_subdir(), ".config/constellation/");
    assert_eq!(default_log_config_files(), vec!["constellation-log.yaml".to_owned()]);
}

#[test]
fn join_inserts_separator_only_when_needed() {
    assert_eq!(join_path("/etc", "a.yaml"), "/etc/a.yaml");
    assert_eq!(join_path("/etc/", "a.yaml"), "/etc/a.yaml");
    assert_eq!(join_path("", "a.yaml"), "a.yaml");
}

#[test]
fn dirs_home_then_system_default() {
    let dirs = config_dirs(Some("/home/u"), ".config/constellation/", None, None, "/sys/");
    assert_eq!(dirs, vec!["/home/u/.config/constellation/".to_owned(), "/sys/".to_owned()]);
}

#[test]
fn dirs_component_override_beats_general() {
    let dirs = config_dirs(None, ".config/constellation/", Some("/comp"), Some("/gen"), "/sys/");
    assert_eq!(dirs, vec!["/comp".to_owned()]);
}

#[test]
fn dirs_general_override_when_no_component_one() {
    let dirs = config_dirs(
        Some("/home/u/"),
        ".config/constellation/",
        None,
        Some("/gen"),
        "/sys/",
    );
    assert_eq!(dirs, vec!["/home/u/.config/constellation/".to_owned(), "/gen".to_owned()]);
}

#[test]
fn dirs_without_home_fall_back_to_system() {
    let dirs = config_dirs(None, ".config/constellation/", None, None, "/sys/");
    assert_eq!(dirs, vec!["/sys/".to_owned()]);
}

#[test]
fn candidates_try_all_names_within_each_directory() {
    let dirs = vec!["/x".to_owned(), "/y/".to_owned()];
    let names = vec!["a.yaml".to_owned(), "b.yaml".to_owned()];
    let paths = candidate_paths(&dirs, &names);
    // Every candidate name is tried, in order of preference, in one
    // directory before the next directory is consulted.
    assert_eq!(
        paths,
        vec![
            "/x/a.yaml".to_owned(),
            "/x/b.yaml".to_owned(),
            "/y/a.yaml".to_owned(),
            "/y/b.yaml".to_owned(),
        ]
    );
}

#[test]
fn scan_accepts_parsed_and_skips_the_rest() {
    assert!(matches!(scan_decision(0, 3, ProbeOutcome::Parsed), ScanDecision::Accept));
    assert!(matches!(scan_decision(0, 3, ProbeOutcome::Missing), ScanDecision::Next(1)));
    assert!(matches!(scan_decision(1, 3, ProbeOutcome::ParseError), ScanDecision::Next(2)));
    assert!(matches!(scan_decision(2, 3, ProbeOutcome::Missing), ScanDecision::Exhausted));
    assert!(matches!(scan_decision(2, 3, ProbeOutcome::Parsed), ScanDecision::Accept));
}

#[test]
fn scan_continues_past_a_parse_error_to_the_next_candidate() {
    // A candidate that exists but does not parse is skipped, not fatal:
    // the scan reaches the later candidate and accepts it.
    let outcomes = [ProbeOutcome::ParseError, ProbeOutcome::Missing, ProbeOutcome::Parsed];
    let mut index = 0usize;
    let mut accepted = None;
    loop {
        match scan_decision(index, outcomes.len(), outcomes[index]) {
            ScanDecision::Accept => {
                accepted = Some(index);
                break;
            }
            ScanDecision::Next(next) => index = next,
            ScanDecision::Exhausted => break,
        }
    }
    assert_eq!(accepted, Some(2));
}

#[test]
fn scan_reports_exhaustion_when_nothing_parses() {
    let outcomes = [ProbeOutcome::Missing, ProbeOutcome::ParseError];
    let mut index = 0usize;
    let mut accepted = None;
    loop {
        match scan_decision(index, outcomes.len(), outcomes[index]) {
            ScanDecision::Accept => {
                accepted = Some(index);
                break;
            }
            ScanDecision::Next(next) => index = next,
            ScanDecision::Exhausted => break,
        }
    }
    assert_eq!(accepted, None);
}

#[test]
fn candidates_empty_inputs_give_empty_list() {
    let no_dirs: Vec<String> = Vec::new();
    let names = vec!["a.yaml".to_owned()];
    assert!(candidate_paths(&no_dirs, &names).is_empty());
    let dirs = vec!["/x".to_owned()];
    let no_names: Vec<String> = Vec::new();
    assert!(candidate_paths(&dirs, &no_names).is_empty());
}
