//! Service configuration: the settings of the process that serves the
//! front end, and how their textual forms are read.

use vstd::prelude::*;

verus! {

/// The kind of deployment.
#[derive(PartialEq, Eq, Debug, Clone, Copy)]
pub enum Environment {
    Development,
    Release,
}

/// How much the service logs, from the least to the most verbose.
#[derive(PartialEq, Eq, Debug, Clone, Copy)]
pub enum LogLevel {
    Error,
    Warn,
    Info,
    Debug,
    Trace,
}

/// The settings of the service.
#[derive(PartialEq, Eq, Debug)]
pub struct Config {
    /// The address to listen on; `localhost` unless set.
    pub svc_endpoint: String,
    /// The port to listen on; `8080` unless set.
    pub svc_port: String,
    /// The log level; `Info` unless set.
    pub log_level: LogLevel,
    /// The kind of deployment; `Release` unless set.
    pub environment: Environment,
}

/// The deployment that a text names: `Development` for `development`,
/// `Development` and `DEVELOPMENT`, and `Release` for everything else.
pub open spec fn environment_named(text: Seq<char>) -> Environment {
    if text == "development"@ || text == "Development"@ || text == "DEVELOPMENT"@ {
        Environment::Development
    } else {
        Environment::Release
    }
}

/// The deployment for a setting that may be absent: `Release` when it is.
pub open spec fn environment_of(value: Option<Seq<char>>) -> Environment {
    match value {
        Some(text) => environment_named(text),
        None => Environment::Release,
    }
}

/// The log level that a text names: one of the five upper-case names, and
/// `Info` for everything else.
pub open spec fn log_level_named(text: Seq<char>) -> LogLevel {
    if text == "ERROR"@ {
        LogLevel::Error
    } else if text == "WARN"@ {
        LogLevel::Warn
    } else if text == "DEBUG"@ {
        LogLevel::Debug
    } else if text == "TRACE"@ {
        LogLevel::Trace
    } else {
        LogLevel::Info
    }
}

/// The log level for a setting that may be absent: `Info` when it is.
pub open spec fn log_level_of(value: Option<Seq<char>>) -> LogLevel {
    match value {
        Some(text) => log_level_named(text),
        None => LogLevel::Info,
    }
}

/// The characters of a setting that may be absent.
pub open spec fn text_of(value: Option<&str>) -> Option<Seq<char>> {
    match value {
        Some(text) => Some(text@),
        None => None,
    }
}

/// The name of a deployment, as it is printed.
pub open spec fn environment_name(environment: Environment) -> Seq<char> {
    match environment {
        Environment::Development => "Development"@,
        Environment::Release => "Release"@,
    }
}

/// Whether two texts hold the same characters.
fn same_text(left: &str, right: &str) -> (same: bool)
    ensures
        same == (left@ == right@),
{
    left.to_owned() == right.to_owned()
}

impl Environment {
    /// The name of the deployment: `Development` or `Release`.
    pub fn to_string(&self) -> (name: String)
        ensures
            name@ == environment_name(*self),
    {
        match self {
            Environment::Development => "Development".to_owned(),
            Environment::Release => "Release".to_owned(),
        }
    }
}

impl Clone for Config {
    /// A configuration with the same settings.
    fn clone(&self) -> (copy: Config)
        ensures
            copy == *self,
    {
        Config {
            svc_endpoint: self.svc_endpoint.clone(),
            svc_port: self.svc_port.clone(),
            log_level: self.log_level,
            environment: self.environment,
        }
    }
}

impl Default for Config {
    /// The service on `localhost:8080`, in release, logging at `Info`.
    fn default() -> (config: Config)
        ensures
            config.svc_endpoint@ == "localhost"@,
            config.svc_port@ == "8080"@,
            config.log_level == LogLevel::Info,
            config.environment == Environment::Release,
    {
        let svc_endpoint: String = "localhost".to_owned();
        let svc_port: String = "8080".to_owned();
        let log_level = LogLevel::Info;
        let environment = Environment::Release;

        Config { svc_endpoint, svc_port, log_level, environment }
    }
}

impl Config {
    /// The configuration that the four settings of the environment give. The
    /// endpoint and the port are taken as they are; the log level and the
    /// deployment are read from their texts and fall back to `Info` and
    /// `Release` where the text is absent or names nothing.
    pub fn from_envar(
        svc_endpoint: String,
        svc_port: String,
        log_level: Option<&str>,
        environment: Option<&str>,
    ) -> (config: Config)
        ensures
            config.svc_endpoint == svc_endpoint,
            config.svc_port == svc_port,
            config.log_level == log_level_of(text_of(log_level)),
            config.environment == environment_of(text_of(environment)),
    {
        let log_level = Self::parse_log_level(log_level);
        let environment = Self::parse_environment(environment);

        Config { svc_endpoint, svc_port, log_level, environment }
    }

    /// Reads the deployment from its setting.
    pub fn parse_environment(value: Option<&str>) -> (environment: Environment)
        ensures
            environment == environment_of(text_of(value)),
    {
        match value {
            None => Environment::Release,
            Some(val) => {
                if same_text(val, "release") || same_text(val, "Release") || same_text(
                    val,
                    "RELEASE",
                ) {
                    proof {
                        lemma_names_differ();
                    }
                    Environment::Release
                } else if same_text(val, "development") || same_text(val, "Development")
                    || same_text(val, "DEVELOPMENT") {
                    Environment::Development
                } else {
                    Environment::Release
                }
            },
        }
    }

    /// Reads the log level from its setting.
    pub fn parse_log_level(value: Option<&str>) -> (log_level: LogLevel)
        ensures
            log_level == log_level_of(text_of(value)),
    {
        match value {
            None => LogLevel::Info,
            Some(val) => {
                if same_text(val, "ERROR") {
                    LogLevel::Error
                } else if same_text(val, "WARN") {
                    LogLevel::Warn
                } else if same_text(val, "INFO") {
                    proof {
                        lemma_info_is_no_other_level();
                    }
                    LogLevel::Info
                } else if same_text(val, "DEBUG") {
                    LogLevel::Debug
                } else if same_text(val, "TRACE") {
                    LogLevel::Trace
                } else {
                    LogLevel::Info
                }
            },
        }
    }
}

/// `INFO` is none of the other four level names.
proof fn lemma_info_is_no_other_level()
    ensures
        "INFO"@ != "ERROR"@,
        "INFO"@ != "WARN"@,
        "INFO"@ != "DEBUG"@,
        "INFO"@ != "TRACE"@,
{
    reveal_strlit("INFO");
    reveal_strlit("ERROR");
    reveal_strlit("WARN");
    reveal_strlit("DEBUG");
    reveal_strlit("TRACE");
    assert("INFO"@.len() == 4);
    assert("ERROR"@.len() == 5);
    assert("DEBUG"@.len() == 5);
    assert("TRACE"@.len() == 5);
    assert("INFO"@[0] == 'I');
    assert("WARN"@[0] == 'W');
}

/// No spelling of `release` is a spelling of `development`.
proof fn lemma_names_differ()
    ensures
        "release"@ != "development"@,
        "release"@ != "Development"@,
        "release"@ != "DEVELOPMENT"@,
        "Release"@ != "development"@,
        "Release"@ != "Development"@,
        "Release"@ != "DEVELOPMENT"@,
        "RELEASE"@ != "development"@,
        "RELEASE"@ != "Development"@,
        "RELEASE"@ != "DEVELOPMENT"@,
{
    reveal_strlit("release");
    reveal_strlit("Release");
    reveal_strlit("RELEASE");
    reveal_strlit("development");
    reveal_strlit("Development");
    reveal_strlit("DEVELOPMENT");
    assert("release"@.len() == 7);
    assert("Release"@.len() == 7);
    assert("RELEASE"@.len() == 7);
    assert("development"@.len() == 11);
    assert("Development"@.len() == 11);
    assert("DEVELOPMENT"@.len() == 11);
}

} // verus!
