use rdm::user_config::{
    candidate_paths, config_file_name, first_user_config, load, locate, Config, ConfigData,
    ConfigError, LoadOutcome,
};

fn probes(items: &[(&str, bool)]) -> Vec<(String, bool)> {
    items.iter().map(|(path, exists)| (path.to_string(), *exists)).collect()
}

fn data() -> ConfigData {
    ConfigData {
        redmine_key: "SECRET-REDACTED".to_string(),
        redmine_url: "http://example.com/".to_string(),
        default_close_status: Some("Closed".to_string()),
    }
}

#[test]
fn nearest_existing_file_is_chosen() {
    let found = first_user_config(probes(&[
        ("/a/b/c/.rdm.json", false),
        ("/a/b/.rdm.json", true),
        ("/a/.rdm.json", true),
        ("/.rdm.json", false),
    ]));
    assert_eq!(found, Ok("/a/b/.rdm.json".to_string()));
}

#[test]
fn file_in_the_working_directory_is_chosen_first() {
    let found = first_user_config(probes(&[("/a/.rdm.json", true), ("/.rdm.json", true)]));
    assert_eq!(found, Ok("/a/.rdm.json".to_string()));
}

#[test]
fn every_path_tried_is_reported() {
    let found = first_user_config(probes(&[
        ("/a/b/.rdm.json", false),
        ("/a/.rdm.json", false),
        ("/.rdm.json", false),
    ]));
    assert_eq!(
        found,
        Err(vec![
            "/a/b/.rdm.json".to_string(),
            "/a/.rdm.json".to_string(),
            "/.rdm.json".to_string()
        ])
    );
}

#[test]
fn no_probes_find_nothing() {
    assert_eq!(first_user_config(Vec::new()), Err(Vec::new()));
}

#[test]
fn load_outcomes_map_to_their_results() {
    assert_eq!(
        load("/a/.rdm.json".to_string(), LoadOutcome::Unreadable("denied".to_string())),
        Err(ConfigError::Loading("denied".to_string()))
    );
    assert_eq!(
        load("/a/.rdm.json".to_string(), LoadOutcome::Malformed("EOF".to_string())),
        Err(ConfigError::Parsing("EOF".to_string()))
    );
    assert_eq!(
        load("/a/.rdm.json".to_string(), LoadOutcome::Decoded(data())),
        Ok(Config { data: data(), path: "/a/.rdm.json".to_string() })
    );
}

#[test]
fn config_getters() {
    let config = Config::new(data(), "/a/.rdm.json".to_string());
    assert_eq!(config.path(), "/a/.rdm.json");
    assert_eq!(config.redmine_key(), "SECRET-REDACTED");
    assert_eq!(config.redmine_url(), "http://example.com/");
    assert_eq!(config.default_close_status(), Some("Closed"));
    let bare = Config::new(ConfigData { default_close_status: None, ..data() }, String::new());
    assert_eq!(bare.default_close_status(), None);
    assert_eq!(config.clone(), config);
}

#[test]
fn config_error_messages() {
    assert_eq!(
        ConfigError::Loading("permission denied".to_string()).message(),
        "Configuration error: permission denied"
    );
    assert_eq!(
        ConfigError::Parsing("missing field".to_string()).message(),
        "Configuration error: missing field"
    );
    let error = ConfigError::NoConfigFile {
        searched_paths: vec!["/a/b/.rdm.json".to_string(), "/a/.rdm.json".to_string()],
    };
    assert_eq!(
        error.message(),
        "Configuration error: Unable to find a config file. Searched paths: [\"/a/b/.rdm.json\", \"/a/.rdm.json\"]"
    );
    assert_eq!(
        ConfigError::NoConfigFile { searched_paths: Vec::new() }.message(),
        "Configuration error: Unable to find a config file. Searched paths: []"
    );
    assert_eq!(
        ConfigError::not_found_message("[]"),
        "Configuration error: Unable to find a config file. Searched paths: []"
    );
}

#[test]
fn config_error_descriptions() {
    assert_eq!(
        ConfigError::Loading(String::new()).description(),
        "configuration error: error loading config file"
    );
    assert_eq!(
        ConfigError::Parsing(String::new()).description(),
        "configuration error: syntax error on config file"
    );
    assert_eq!(
        ConfigError::NoConfigFile { searched_paths: Vec::new() }.description(),
        "Unable to find a config file"
    );
}

#[test]
fn config_file_has_its_fixed_name() {
    assert_eq!(config_file_name(), ".rdm.json");
}

#[test]
fn failed_search_is_a_no_config_file_error() {
    let found = locate(probes(&[("/a/.rdm.json", false), ("/.rdm.json", false)]));
    assert_eq!(
        found,
        Err(ConfigError::NoConfigFile {
            searched_paths: vec!["/a/.rdm.json".to_string(), "/.rdm.json".to_string()]
        })
    );
    let found = locate(probes(&[("/a/.rdm.json", false), ("/.rdm.json", true)]));
    assert_eq!(found, Ok("/.rdm.json".to_string()));
}

#[test]
fn candidates_climb_to_the_root() {
    assert_eq!(
        candidate_paths("/home/me/project"),
        vec![
            "/home/me/project/.rdm.json".to_string(),
            "/home/me/.rdm.json".to_string(),
            "/home/.rdm.json".to_string(),
            "/.rdm.json".to_string(),
        ]
    );
    assert_eq!(candidate_paths("/"), vec!["/.rdm.json".to_string()]);
}

#[test]
fn candidates_of_a_relative_directory_end_beside_it() {
    assert_eq!(
        candidate_paths("work/rdm"),
        vec![
            "work/rdm/.rdm.json".to_string(),
            "work/.rdm.json".to_string(),
            ".rdm.json".to_string(),
        ]
    );
}

#[test]
fn search_takes_the_nearest_candidate_that_exists() {
    let candidates = candidate_paths("/a/b");
    let probes: Vec<(String, bool)> =
        candidates.into_iter().map(|path| (path.clone(), path == "/a/.rdm.json")).collect();
    assert_eq!(locate(probes), Ok("/a/.rdm.json".to_string()));
}
