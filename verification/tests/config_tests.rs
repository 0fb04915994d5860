use dashboard_copy::config::{build_table, prepare, Config, ConfigError};

fn config() -> Config {
    Config {
        source_url: "https://staging.example.com".to_string(),
        source_api_key: "source-key".to_string(),
        destination_url: "https://prod.example.com/grafana".to_string(),
        destination_api_key: "destination-key".to_string(),
        dashboards: vec!["dash-1".to_string(), "dash-2".to_string()],
        notification_map: vec![
            ("staging-pager".to_string(), "prod-pager".to_string()),
            ("staging-mail".to_string(), "prod-mail".to_string()),
        ],
    }
}

fn error_of(config: Config) -> Option<ConfigError> {
    match prepare(config) {
        Ok(_) => None,
        Err(error) => Some(error),
    }
}

#[test]
fn prepare_accepts_complete_settings() {
    let run = match prepare(config()) {
        Ok(run) => run,
        Err(error) => panic!("settings refused: {:?}", error),
    };
    assert_eq!(run.source.base(), "https://staging.example.com");
    assert_eq!(run.source.access_key(), "source-key");
    assert_eq!(run.destination.base(), "https://prod.example.com/grafana");
    assert_eq!(run.destination.access_key(), "destination-key");
    assert_eq!(run.dashboards, vec!["dash-1".to_string(), "dash-2".to_string()]);
    assert_eq!(run.table.len(), 2);
    assert_eq!(run.table.get("staging-pager"), Some(&"prod-pager".to_string()));
    assert_eq!(run.table.get("staging-mail"), Some(&"prod-mail".to_string()));
}

#[test]
fn prepare_without_mapping_gives_empty_table() {
    let mut settings = config();
    settings.notification_map = vec![];
    match prepare(settings) {
        Ok(run) => assert_eq!(run.table.len(), 0),
        Err(error) => panic!("settings refused: {:?}", error),
    }
}

#[test]
fn prepare_rejects_source_address() {
    let mut settings = config();
    settings.source_url = "staging".to_string();
    assert_eq!(error_of(settings), Some(ConfigError::SourceUrl));
}

#[test]
fn prepare_rejects_destination_address() {
    let mut settings = config();
    settings.destination_url = String::new();
    assert_eq!(error_of(settings), Some(ConfigError::DestinationUrl));
}

#[test]
fn prepare_rejects_empty_list_of_dashboards() {
    let mut settings = config();
    settings.dashboards = vec![];
    assert_eq!(error_of(settings), Some(ConfigError::NoDashboards));
}

#[test]
fn prepare_judges_source_first_and_dashboards_last() {
    let mut settings = config();
    settings.source_url = "no".to_string();
    settings.destination_url = "no".to_string();
    settings.dashboards = vec![];
    assert_eq!(error_of(settings), Some(ConfigError::SourceUrl));

    let mut settings = config();
    settings.destination_url = "no".to_string();
    settings.dashboards = vec![];
    assert_eq!(error_of(settings), Some(ConfigError::DestinationUrl));
}

#[test]
fn later_pair_replaces_earlier_one() {
    let table = build_table(&vec![
        ("a".to_string(), "first".to_string()),
        ("b".to_string(), "B".to_string()),
        ("a".to_string(), "second".to_string()),
    ]);
    assert_eq!(table.len(), 2);
    assert_eq!(table.get("a"), Some(&"second".to_string()));
    assert_eq!(table.get("b"), Some(&"B".to_string()));
    assert_eq!(table.get("c"), None);
}

#[test]
fn table_of_no_pairs_is_empty() {
    let table = build_table(&vec![]);
    assert_eq!(table.len(), 0);
    assert!(!table.contains(""));
}
