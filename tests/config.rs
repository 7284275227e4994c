use grafana_to_ntfy::config::{
    first_present, Cli, Config, ConfigError, ConfigFile, DEFAULT_PORT, DEFAULT_URL,
};

fn cli(url: Option<&str>, topic: Option<&str>, port: Option<u16>, key: Option<&str>) -> Cli {
    Cli {
        config_file: None,
        url: url.map(String::from),
        topic: topic.map(String::from),
        port,
        key: key.map(String::from),
    }
}

fn file(url: Option<&str>, topic: Option<&str>, port: Option<u16>, key: Option<&str>) -> ConfigFile {
    ConfigFile {
        url: url.map(String::from),
        topic: topic.map(String::from),
        port,
        key: key.map(String::from),
    }
}

#[test]
fn command_line_wins_over_file() {
    let args = cli(Some("http://cli"), Some("cli_topic"), Some(9000), Some("cli_key"));
    let f = file(Some("http://file"), Some("file_topic"), Some(7000), Some("file_key"));
    let c = Config::new(args, f).unwrap();
    assert_eq!(c.url, "http://cli");
    assert_eq!(c.topic, "cli_topic");
    assert_eq!(c.port, 9000);
    assert_eq!(c.key.as_deref(), Some("cli_key"));
}

#[test]
fn file_wins_over_default() {
    let args = cli(None, None, None, None);
    let f = file(Some("http://file"), Some("file_topic"), Some(7000), Some("file_key"));
    let c = Config::new(args, f).unwrap();
    assert_eq!(c.url, "http://file");
    assert_eq!(c.topic, "file_topic");
    assert_eq!(c.port, 7000);
    assert_eq!(c.key.as_deref(), Some("file_key"));
}

#[test]
fn precedence_is_per_field() {
    let args = cli(None, Some("cli_topic"), None, None);
    let f = file(Some("http://file"), None, Some(7000), None);
    let c = Config::new(args, f).unwrap();
    assert_eq!(c.url, "http://file");
    assert_eq!(c.topic, "cli_topic");
    assert_eq!(c.port, 7000);
    assert_eq!(c.key, None);
}

#[test]
fn defaults_fill_what_no_source_names() {
    let c = Config::new(cli(None, Some("ops"), None, None), ConfigFile::empty()).unwrap();
    assert_eq!(c.url, "http://ntfy.sh");
    assert_eq!(c.url, DEFAULT_URL);
    assert_eq!(c.port, 8080);
    assert_eq!(c.port, DEFAULT_PORT);
    assert_eq!(c.topic, "ops");
    assert_eq!(c.key, None);
}

#[test]
fn missing_topic_is_an_error() {
    let args = cli(Some("http://cli"), None, Some(1), Some("k"));
    let f = file(Some("http://file"), None, Some(2), Some("k2"));
    assert!(matches!(Config::new(args, f), Err(ConfigError::MissingTopic)));
    assert!(matches!(
        Config::new(cli(None, None, None, None), ConfigFile::empty()),
        Err(ConfigError::MissingTopic)
    ));
}

#[test]
fn config_path_defaults_to_known_name() {
    let args = cli(None, None, None, None);
    assert_eq!(args.config_path(), "grafana_to_ntfy.toml");
    let mut named = cli(None, None, None, None);
    named.config_file = Some("other.toml".to_string());
    assert_eq!(named.config_path(), "other.toml");
}

#[test]
fn first_present_prefers_the_first() {
    assert_eq!(first_present(Some(1u16), Some(2u16)), Some(1));
    assert_eq!(first_present(None, Some(2u16)), Some(2));
    assert_eq!(first_present::<u16>(None, None), None);
}
