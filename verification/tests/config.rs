use bydit::config::candidate_paths_with_env;
use bydit::config::format_paths;
use bydit::config::join_path;
use bydit::config::load_config;
use bydit::config::parse_failure;
use bydit::config::path_is_absolute;
use bydit::config::ConfigAction;
use bydit::config::ConfigError;
use bydit::config::ConfigSearch;
use bydit::config::EnvironmentPaths;
use bydit::config::ReadOutcome;

fn sample_config() -> &'static str {
    "user_agent = \"ua\"\nclient_id = \"id\"\nclient_secret = \"secret\"\nusername = \"user\"\npassword = \"pass\"\n"
}

#[test]
fn candidate_order_prefers_xdg_homes() {
    let env_paths = EnvironmentPaths {
        xdg_config_home: Some(String::from("/tmp/xdg_config")),
        xdg_data_home: Some(String::from("/tmp/xdg_data")),
        home_dir: Some(String::from("/home/demo")),
        current_dir: Some(String::from("/work/project")),
    };

    let candidates = candidate_paths_with_env("config.toml", &env_paths);

    assert_eq!(
        candidates,
        vec![
            String::from("/work/project/config.toml"),
            String::from("/tmp/xdg_config/bydit/config.toml"),
            String::from("/tmp/xdg_data/bydit/config.toml"),
        ]
    );
}

#[test]
fn candidate_order_falls_back_to_home_dirs() {
    let env_paths = EnvironmentPaths {
        xdg_config_home: None,
        xdg_data_home: None,
        home_dir: Some(String::from("/home/demo")),
        current_dir: Some(String::from("/work/project")),
    };

    let candidates = candidate_paths_with_env("config.toml", &env_paths);

    assert_eq!(
        candidates,
        vec![
            String::from("/work/project/config.toml"),
            String::from("/home/demo/.config/bydit/config.toml"),
            String::from("/home/demo/.local/share/bydit/config.toml"),
        ]
    );
}

#[test]
fn load_config_reads_from_xdg_config_home() {
    let env_paths = EnvironmentPaths {
        xdg_config_home: Some(String::from("/sandbox/xdg_config")),
        xdg_data_home: None,
        home_dir: Some(String::from("/sandbox")),
        current_dir: Some(String::from("/sandbox")),
    };

    let (mut search, first) = ConfigSearch::start("config.toml", &env_paths);
    match first {
        ConfigAction::Read { path } => assert_eq!(path, "/sandbox/config.toml"),
        other => panic!("unexpected first action: {:?}", other),
    }
    match load_config(&mut search, ReadOutcome::NotFound) {
        ConfigAction::Read { path } => assert_eq!(path, "/sandbox/xdg_config/bydit/config.toml"),
        other => panic!("unexpected second action: {:?}", other),
    }
    let found = ReadOutcome::Contents { text: String::from(sample_config()) };
    match load_config(&mut search, found) {
        ConfigAction::Parse { path, contents } => {
            assert_eq!(path, "/sandbox/xdg_config/bydit/config.toml");
            assert_eq!(contents, sample_config());
            assert!(contents.contains("username = \"user\""));
        }
        other => panic!("unexpected third action: {:?}", other),
    }
    assert!(matches!(load_config(&mut search, ReadOutcome::NotFound), ConfigAction::Rejected));
}

#[test]
fn load_config_reports_checked_paths() {
    let env_paths = EnvironmentPaths {
        xdg_config_home: Some(String::from("/tmp/xdg_config")),
        xdg_data_home: None,
        home_dir: Some(String::from("/home/demo")),
        current_dir: Some(String::from("/work/project")),
    };

    let (mut search, _first) = ConfigSearch::start("missing-config.toml", &env_paths);
    assert_eq!(search.candidates.len(), 3);
    assert!(matches!(
        load_config(&mut search, ReadOutcome::NotFound),
        ConfigAction::Read { .. }
    ));
    assert!(matches!(
        load_config(&mut search, ReadOutcome::NotFound),
        ConfigAction::Read { .. }
    ));
    let last = load_config(&mut search, ReadOutcome::NotFound);
    match last {
        ConfigAction::Fail { error: ConfigError::NotFound { message } } => {
            assert!(message.contains("/tmp/xdg_config/bydit/missing-config.toml"));
            assert_eq!(
                message,
                "Failed to locate config file 'missing-config.toml'. Checked paths: \
                 /work/project/missing-config.toml, /tmp/xdg_config/bydit/missing-config.toml, \
                 /home/demo/.local/share/bydit/missing-config.toml"
            );
        }
        other => panic!("Expected missing config error, got {:?}", other),
    }
}

#[test]
fn config_search_stops_at_an_unreadable_candidate() {
    let env_paths = EnvironmentPaths {
        xdg_config_home: None,
        xdg_data_home: None,
        home_dir: None,
        current_dir: None,
    };
    let (mut search, first) = ConfigSearch::start("config.toml", &env_paths);
    assert_eq!(search.candidates, vec![String::from("./config.toml")]);
    assert!(matches!(first, ConfigAction::Read { ref path } if path == "./config.toml"));
    let outcome = ReadOutcome::Failed { detail: String::from("permission denied") };
    match load_config(&mut search, outcome) {
        ConfigAction::Fail { error: ConfigError::ReadFailed { message } } => {
            assert_eq!(message, "Failed to read config file './config.toml': permission denied");
        }
        other => panic!("unexpected action: {:?}", other),
    }
    assert_eq!(search.next, 1);
}

#[test]
fn absolute_config_name_is_its_only_candidate() {
    let env_paths = EnvironmentPaths {
        xdg_config_home: Some(String::from("/tmp/xdg_config")),
        xdg_data_home: Some(String::from("/tmp/xdg_data")),
        home_dir: Some(String::from("/home/demo")),
        current_dir: Some(String::from("/work/project")),
    };
    let candidates = candidate_paths_with_env("/etc/bydit.toml", &env_paths);
    assert_eq!(candidates, vec![String::from("/etc/bydit.toml")]);
}

#[test]
fn join_path_follows_the_separator_rules() {
    assert_eq!(join_path("/a", "b"), "/a/b");
    assert_eq!(join_path("/a/", "b"), "/a/b");
    assert_eq!(join_path("", "b"), "b");
    assert_eq!(join_path("/a", "/b"), "/b");
    assert_eq!(join_path("/a", ""), "/a/");
    assert!(path_is_absolute("/a"));
    assert!(!path_is_absolute("a/b"));
    assert!(!path_is_absolute(""));
}

#[test]
fn format_paths_lists_or_says_none() {
    assert_eq!(format_paths(&Vec::new()), "none");
    assert_eq!(format_paths(&vec![String::from("/a")]), "/a");
    assert_eq!(
        format_paths(&vec![String::from("/a"), String::from("/b"), String::from("/c")]),
        "/a, /b, /c"
    );
}

#[test]
fn parse_failure_names_the_file() {
    match parse_failure("/etc/bydit.toml", "missing field `username`") {
        ConfigError::Invalid { message } => assert_eq!(
            message,
            "Failed to parse config file '/etc/bydit.toml': missing field `username`"
        ),
        other => panic!("unexpected error: {:?}", other),
    }
}
