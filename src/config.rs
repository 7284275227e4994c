//! Effective configuration, merged field by field from command-line values,
//! an optional configuration file and built-in defaults.

use vstd::prelude::*;

verus! {

/// File read when no configuration file is named on the command line.
pub const DEFAULT_CONF: &'static str = "grafana_to_ntfy.toml";

/// Destination used when neither the command line nor the file names one.
pub const DEFAULT_URL: &'static str = "http://ntfy.sh";

/// Port listened on when neither the command line nor the file names one.
pub const DEFAULT_PORT: u16 = 8080;

/// The destination used when no source names one, as characters.
pub open spec fn default_url() -> Seq<char> {
    seq!['h', 't', 't', 'p', ':', '/', '/', 'n', 't', 'f', 'y', '.', 's', 'h']
}

/// The configuration file read when none is named, as characters.
pub open spec fn default_conf() -> Seq<char> {
    seq![
        'g', 'r', 'a', 'f', 'a', 'n', 'a', '_', 't', 'o', '_', 'n', 't', 'f', 'y', '.', 't', 'o',
        'm', 'l',
    ]
}

/// Values given on the command line; each one may be absent.
pub struct Cli {
    pub config_file: Option<String>,
    pub url: Option<String>,
    pub topic: Option<String>,
    pub port: Option<u16>,
    pub key: Option<String>,
}

/// Values read from the configuration file; each one may be absent.
pub struct ConfigFile {
    pub url: Option<String>,
    pub topic: Option<String>,
    pub port: Option<u16>,
    pub key: Option<String>,
}

/// The effective configuration, read-only once built.
pub struct Config {
    pub url: String,
    pub topic: String,
    pub port: u16,
    pub key: Option<String>,
}

/// Why no effective configuration could be built.
#[derive(Debug, PartialEq, Eq, Structural)]
pub enum ConfigError {
    /// Neither the command line nor the file names a topic, which has no default.
    MissingTopic,
}

/// The first present value: the higher-precedence source wins when it has one.
pub open spec fn pick<T>(high: Option<T>, low: Option<T>) -> Option<T> {
    if high is Some {
        high
    } else {
        low
    }
}

/// The port that the sources resolve to.
pub open spec fn resolved_port(args: Cli, file: ConfigFile) -> u16 {
    match pick(args.port, file.port) {
        Some(p) => p,
        None => DEFAULT_PORT,
    }
}

/// The destination, as characters, that the sources resolve to.
pub open spec fn resolved_url(args: Cli, file: ConfigFile) -> Seq<char> {
    match pick(args.url, file.url) {
        Some(u) => u@,
        None => default_url(),
    }
}

/// `c` is what the sources resolve to, field by field.
pub open spec fn resolves_to(args: Cli, file: ConfigFile, c: Config) -> bool {
    &&& c.port == resolved_port(args, file)
    &&& c.url@ == resolved_url(args, file)
    &&& Some(c.topic) == pick(args.topic, file.topic)
    &&& c.key == pick(args.key, file.key)
}

/// A value given on the command line is the one in effect, for every field,
/// whatever the file holds and whatever the default is.
pub proof fn lemma_command_line_wins(args: Cli, file: ConfigFile)
    ensures
        forall|c: Config|
            #![trigger resolves_to(args, file, c)]
            resolves_to(args, file, c) ==> {
                &&& (args.port matches Some(p) ==> c.port == p)
                &&& (args.url matches Some(u) ==> c.url@ == u@)
                &&& (args.topic matches Some(t) ==> c.topic == t)
                &&& (args.key matches Some(k) ==> c.key == Some(k))
            },
{
}

/// The first present value of two sources, the first one winning.
pub fn first_present<T>(high: Option<T>, low: Option<T>) -> (r: Option<T>)
    ensures
        r == pick(high, low),
{
    match high {
        Some(v) => Some(v),
        None => low,
    }
}

impl ConfigFile {
    /// A file that names nothing: what a missing or unreadable file counts as.
    pub fn empty() -> (r: ConfigFile)
        ensures
            r.url is None,
            r.topic is None,
            r.port is None,
            r.key is None,
    {
        ConfigFile { url: None, topic: None, port: None, key: None }
    }
}

impl Cli {
    /// The configuration file to read: the one named on the command line,
    /// else the default name.
    pub fn config_path(&self) -> (r: String)
        ensures
            r@ == match self.config_file {
                Some(c) => c@,
                None => default_conf(),
            },
    {
        match &self.config_file {
            Some(c) => c.clone(),
            None => {
                proof {
                    reveal_strlit("grafana_to_ntfy.toml");
                }
                DEFAULT_CONF.to_string()
            },
        }
    }
}

impl Config {
    /// Merges the command line over the file over the defaults, field by
    /// field; fails exactly when no source names a topic.
    pub fn new(args: Cli, file: ConfigFile) -> (r: Result<Config, ConfigError>)
        ensures
            r is Err <==> (args.topic is None && file.topic is None),
            r matches Err(e) ==> e == ConfigError::MissingTopic,
            r matches Ok(c) ==> resolves_to(args, file, c),
    {
        let port = match first_present(args.port, file.port) {
            Some(p) => p,
            None => DEFAULT_PORT,
        };
        let key = first_present(args.key, file.key);
        let topic = match first_present(args.topic, file.topic) {
            Some(t) => t,
            None => {
                return Err(ConfigError::MissingTopic);
            },
        };
        let url = match first_present(args.url, file.url) {
            Some(u) => u,
            None => {
                proof {
                    reveal_strlit("http://ntfy.sh");
                }
                DEFAULT_URL.to_string()
            },
        };
        assert(url@ == resolved_url(args, file));
        Ok(Config { url, topic, port, key })
    }
}

} // verus!
