use vstd::prelude::*;

verus! {

/// A directory rule: the key to use at or below `path`.
#[derive(Debug, Clone)]
pub struct DirectoryConfig {
    pub path: String,
    pub key: String,
}

/// The mapping rules: `default` applies where no rule of `directories` matches;
/// the rules are tried in order.
#[derive(Debug, Clone)]
pub struct Config {
    pub default: String,
    pub directories: Vec<DirectoryConfig>,
}

pub struct RuleView {
    pub path: Seq<char>,
    pub key: Seq<char>,
}

pub struct ConfigView {
    pub default: Seq<char>,
    pub rules: Seq<RuleView>,
}

impl View for DirectoryConfig {
    type V = RuleView;

    open spec fn view(&self) -> RuleView {
        RuleView { path: self.path@, key: self.key@ }
    }
}

impl View for Config {
    type V = ConfigView;

    open spec fn view(&self) -> ConfigView {
        ConfigView { default: self.default@, rules: self.directories@.map_values(|d: DirectoryConfig| d@) }
    }
}

/// Why a run stops before the wrapped tool is started, or why it could not be started.
#[derive(Debug, Clone, Copy, PartialEq, Eq, Structural)]
pub enum RunError {
    /// The configuration file is missing or cannot be read.
    ConfigIoError,
    /// The configuration file does not hold the expected fields and types.
    ConfigFormatError,
    /// The home directory or the working directory cannot be determined.
    EnvironmentResolutionError,
    /// The wrapped tool cannot be started.
    SpawnError,
}

impl DirectoryConfig {
    pub fn new(path: String, key: String) -> (r: DirectoryConfig)
        ensures
            r@ == (RuleView { path: path@, key: key@ }),
    {
        DirectoryConfig { path, key }
    }
}

impl Config {
    pub fn new(default: String, directories: Vec<DirectoryConfig>) -> (r: Config)
        ensures
            r.default@ == default@,
            r.directories@ == directories@,
    {
        Config { default, directories }
    }

    /// Builds a configuration from the fields that a document held: `default` is
    /// required, `directories` may be absent and then means no rules.
    pub fn from_fields(default: Option<String>, directories: Option<Vec<DirectoryConfig>>) -> (r:
        Result<Config, RunError>)
        ensures
            default is None <==> r == Err::<Config, RunError>(RunError::ConfigFormatError),
            r is Ok <==> default is Some,
            r is Ok ==> r->Ok_0.default@ == default->Some_0@,
            r is Ok ==> r->Ok_0.directories@ == match directories {
                Some(v) => v@,
                None => Seq::empty(),
            },
    {
        match default {
            None => Err(RunError::ConfigFormatError),
            Some(d) => {
                let rules = match directories {
                    Some(v) => v,
                    None => Vec::new(),
                };
                Ok(Config { default: d, directories: rules })
            },
        }
    }
}

} // verus!
