//! Configuration: the service name, the lowest level to log and the runtime
//! environment, from defaults or from the variables of the process
//! environment.
//!
//! The library does not read the environment itself. The program reads the
//! six variables named below into an [`EnvVars`] and hands that over.

use crate::level::LogLevel;
use crate::outside::{lowercase, to_lowercase, to_uppercase, uppercase};
use crate::utils::same_text;
use vstd::prelude::*;
use vstd::string::StringExecFns;

verus! {

/// The variable that sets the level, in its prefixed form.
pub const TYL_LOG_LEVEL: &'static str = "TYL_LOG_LEVEL";

/// The variable that sets the level, in its bare form.
pub const LOG_LEVEL: &'static str = "LOG_LEVEL";

/// The variable that sets the service name, in its prefixed form.
pub const TYL_SERVICE_NAME: &'static str = "TYL_SERVICE_NAME";

/// The variable that sets the service name, in its bare form.
pub const SERVICE_NAME: &'static str = "SERVICE_NAME";

/// The variable that sets the runtime environment, in its prefixed form.
pub const TYL_ENVIRONMENT: &'static str = "TYL_ENVIRONMENT";

/// The variable that sets the runtime environment, in its bare form.
pub const ENVIRONMENT: &'static str = "ENVIRONMENT";

/// Runtime environment for the service.
#[derive(Debug, Clone, Copy, PartialEq, Eq, Structural)]
pub enum Environment {
    Development,
    Production,
    Test,
}

/// Why a configuration was refused.
#[derive(Debug, Clone, PartialEq, Eq)]
pub enum ConfigError {
    /// A field of the configuration holds a value that it may not hold.
    Validation { field: String, message: String },
    /// A variable of the environment holds a value that cannot be read.
    Configuration { message: String },
}

/// A configuration error by its texts.
pub enum ConfigErrorView {
    Validation { field: Seq<char>, message: Seq<char> },
    Configuration { message: Seq<char> },
}

impl View for ConfigError {
    type V = ConfigErrorView;

    open spec fn view(&self) -> ConfigErrorView {
        match self {
            ConfigError::Validation { field, message } => ConfigErrorView::Validation {
                field: field@,
                message: message@,
            },
            ConfigError::Configuration { message } => ConfigErrorView::Configuration {
                message: message@,
            },
        }
    }
}

/// The values of the six variables that the configuration reads, each as the
/// process environment held it when it was read, or `None` where it was not
/// set.
#[derive(Debug, Clone, PartialEq, Eq)]
pub struct EnvVars {
    pub tyl_log_level: Option<String>,
    pub log_level: Option<String>,
    pub tyl_service_name: Option<String>,
    pub service_name: Option<String>,
    pub tyl_environment: Option<String>,
    pub environment: Option<String>,
}

/// The text of a variable's value.
pub open spec fn text_of(value: Option<String>) -> Option<Seq<char>> {
    match value {
        Some(text) => Some(text@),
        None => None,
    }
}

/// The value that counts of a variable with two forms: that of the prefixed
/// form where it is set, else that of the bare form.
pub open spec fn first_set(prefixed: Option<String>, bare: Option<String>) -> Option<Seq<char>> {
    match prefixed {
        Some(text) => Some(text@),
        None => text_of(bare),
    }
}

/// The level that an uppercase name stands for.
pub open spec fn level_named(upper: Seq<char>) -> Option<LogLevel> {
    if upper == "TRACE"@ {
        Some(LogLevel::Trace)
    } else if upper == "DEBUG"@ {
        Some(LogLevel::Debug)
    } else if upper == "INFO"@ {
        Some(LogLevel::Info)
    } else if upper == "WARN"@ || upper == "WARNING"@ {
        Some(LogLevel::Warn)
    } else if upper == "ERROR"@ {
        Some(LogLevel::Error)
    } else {
        None
    }
}

/// The environment that a lowercase name stands for.
pub open spec fn environment_named(lower: Seq<char>) -> Option<Environment> {
    if lower == "development"@ || lower == "dev"@ {
        Some(Environment::Development)
    } else if lower == "production"@ || lower == "prod"@ {
        Some(Environment::Production)
    } else if lower == "test"@ || lower == "testing"@ {
        Some(Environment::Test)
    } else {
        None
    }
}

/// The environment that the bare variable selects: the one that its value
/// names, whatever the case of its letters, and Development where it is not
/// set or names none.
pub open spec fn detected_environment(value: Option<Seq<char>>) -> Environment {
    match value {
        Some(text) => match environment_named(lowercase(text)) {
            Some(environment) => environment,
            None => Environment::Development,
        },
        None => Environment::Development,
    }
}

impl EnvVars {
    /// An environment in which none of the variables is set.
    pub fn unset() -> (r: EnvVars)
        ensures
            r == (EnvVars {
                tyl_log_level: None,
                log_level: None,
                tyl_service_name: None,
                service_name: None,
                tyl_environment: None,
                environment: None,
            }),
    {
        EnvVars {
            tyl_log_level: None,
            log_level: None,
            tyl_service_name: None,
            service_name: None,
            tyl_environment: None,
            environment: None,
        }
    }

    /// The value that sets the level.
    pub open spec fn level_value(&self) -> Option<Seq<char>> {
        first_set(self.tyl_log_level, self.log_level)
    }

    /// The value that sets the service name.
    pub open spec fn name_value(&self) -> Option<Seq<char>> {
        first_set(self.tyl_service_name, self.service_name)
    }

    /// The value that sets the runtime environment.
    pub open spec fn environment_value(&self) -> Option<Seq<char>> {
        first_set(self.tyl_environment, self.environment)
    }
}

/// The value that counts of a variable with two forms.
pub(crate) fn pick<'a>(prefixed: &'a Option<String>, bare: &'a Option<String>) -> (r: Option<&'a str>)
    ensures
        match r {
            Some(text) => first_set(*prefixed, *bare) == Some(text@),
            None => first_set(*prefixed, *bare) is None,
        },
{
    match prefixed {
        Some(text) => Some(text.as_str()),
        None => match bare {
            Some(text) => Some(text.as_str()),
            None => None,
        },
    }
}

impl LogLevel {
    /// The level that an uppercase name stands for: TRACE, DEBUG, INFO, WARN
    /// or WARNING, ERROR.
    pub fn from_uppercase(name: &str) -> (r: Option<LogLevel>)
        ensures
            r == level_named(name@),
    {
        if same_text(name, "TRACE") {
            Some(LogLevel::Trace)
        } else if same_text(name, "DEBUG") {
            Some(LogLevel::Debug)
        } else if same_text(name, "INFO") {
            Some(LogLevel::Info)
        } else if same_text(name, "WARN") || same_text(name, "WARNING") {
            Some(LogLevel::Warn)
        } else if same_text(name, "ERROR") {
            Some(LogLevel::Error)
        } else {
            None
        }
    }
}

impl Environment {
    /// The environment that a lowercase name stands for: development or dev,
    /// production or prod, test or testing.
    pub fn from_lowercase(name: &str) -> (r: Option<Environment>)
        ensures
            r == environment_named(name@),
    {
        if same_text(name, "development") || same_text(name, "dev") {
            Some(Environment::Development)
        } else if same_text(name, "production") || same_text(name, "prod") {
            Some(Environment::Production)
        } else if same_text(name, "test") || same_text(name, "testing") {
            Some(Environment::Test)
        } else {
            None
        }
    }

    /// The environment that the bare variable selects. A value is matched
    /// whatever the case of its letters; Development is the answer where the
    /// variable is not set and where its value names no environment.
    pub fn from_env(vars: &EnvVars) -> (r: Environment)
        ensures
            r == detected_environment(text_of(vars.environment)),
    {
        match &vars.environment {
            Some(value) => {
                let lower = to_lowercase(value.as_str());
                match Environment::from_lowercase(lower.as_str()) {
                    Some(environment) => environment,
                    None => Environment::Development,
                }
            },
            None => Environment::Development,
        }
    }
}

/// Configuration for logging setup.
#[derive(Debug)]
pub struct LoggingConfig {
    pub service_name: String,
    pub level: LogLevel,
    pub environment: Environment,
}

/// A configuration by its values.
pub struct LoggingConfigView {
    pub service_name: Seq<char>,
    pub level: LogLevel,
    pub environment: Environment,
}

impl View for LoggingConfig {
    type V = LoggingConfigView;

    open spec fn view(&self) -> LoggingConfigView {
        LoggingConfigView {
            service_name: self.service_name@,
            level: self.level,
            environment: self.environment,
        }
    }
}

impl Clone for LoggingConfig {
    fn clone(&self) -> (r: LoggingConfig)
        ensures
            r@ == self@,
    {
        LoggingConfig {
            service_name: self.service_name.clone(),
            level: self.level,
            environment: self.environment,
        }
    }
}

/// The error for a level that cannot be read.
pub open spec fn invalid_level(value: Seq<char>) -> ConfigErrorView {
    ConfigErrorView::Configuration { message: "invalid log level: "@ + value }
}

/// The error for an environment that cannot be read.
pub open spec fn invalid_environment(value: Seq<char>) -> ConfigErrorView {
    ConfigErrorView::Configuration { message: "invalid environment: "@ + value }
}

/// The error for a service name that is empty.
pub open spec fn empty_service_name() -> ConfigErrorView {
    ConfigErrorView::Validation { field: "service_name"@, message: "cannot be empty"@ }
}

/// What overlaying the variables does to a configuration, and how it ends.
///
/// The level comes first: a value that names no level ends the overlay with
/// nothing changed. Then the service name, taken as it stands. The runtime
/// environment comes last: a value that names none ends the overlay with the
/// level and the service name already overlaid.
pub open spec fn overlay(config: LoggingConfigView, vars: EnvVars) -> (
    LoggingConfigView,
    Option<ConfigErrorView>,
) {
    let level = match vars.level_value() {
        Some(value) => level_named(uppercase(value)),
        None => Some(config.level),
    };
    let service_name = match vars.name_value() {
        Some(value) => value,
        None => config.service_name,
    };
    let environment = match vars.environment_value() {
        Some(value) => environment_named(lowercase(value)),
        None => Some(config.environment),
    };
    if level is None {
        (config, Some(invalid_level(vars.level_value()->0)))
    } else if environment is None {
        (
            LoggingConfigView { service_name, level: level->0, environment: config.environment },
            Some(invalid_environment(vars.environment_value()->0)),
        )
    } else {
        (LoggingConfigView { service_name, level: level->0, environment: environment->0 }, None)
    }
}

/// The configuration of a service before anything is overlaid: at level
/// Info, in the environment that the bare variable selects.
pub open spec fn initial(service_name: Seq<char>, vars: EnvVars) -> LoggingConfigView {
    LoggingConfigView {
        service_name,
        level: LogLevel::Info,
        environment: detected_environment(text_of(vars.environment)),
    }
}

/// The error of a result, by its texts.
pub open spec fn error_of<T>(result: Result<T, ConfigError>) -> Option<ConfigErrorView> {
    match result {
        Ok(_) => None,
        Err(error) => Some(error@),
    }
}

impl LoggingConfig {
    /// A configuration for the service, at level Info, in the environment
    /// that the bare variable selects.
    pub fn new(service_name: &str, vars: &EnvVars) -> (r: LoggingConfig)
        ensures
            r@ == initial(service_name@, *vars),
    {
        LoggingConfig {
            service_name: service_name.to_owned(),
            level: LogLevel::Info,
            environment: Environment::from_env(vars),
        }
    }

    /// The configuration with another level.
    pub fn with_level(self, level: LogLevel) -> (r: LoggingConfig)
        ensures
            r@ == (LoggingConfigView { level, ..self@ }),
    {
        LoggingConfig { service_name: self.service_name, level, environment: self.environment }
    }

    /// The configuration with another runtime environment.
    pub fn with_environment(self, environment: Environment) -> (r: LoggingConfig)
        ensures
            r@ == (LoggingConfigView { environment, ..self@ }),
    {
        LoggingConfig { service_name: self.service_name, level: self.level, environment }
    }

    /// The name of the service.
    pub fn service_name(&self) -> (r: &str)
        ensures
            r@ == self@.service_name,
    {
        self.service_name.as_str()
    }

    /// The lowest level to log.
    pub fn level(&self) -> (r: LogLevel)
        ensures
            r == self@.level,
    {
        self.level
    }

    /// The runtime environment.
    pub fn environment(&self) -> (r: Environment)
        ensures
            r == self@.environment,
    {
        self.environment
    }

    /// The name under which a configuration system knows this part.
    pub fn name(&self) -> (r: &'static str)
        ensures
            r@ == "logging"@,
    {
        "logging"
    }

    /// The prefix of the variables of this part.
    pub fn env_prefix(&self) -> (r: &'static str)
        ensures
            r@ == "LOG"@,
    {
        "LOG"
    }

    /// Check the configuration: the service name must not be empty.
    pub fn validate(&self) -> (r: Result<(), ConfigError>)
        ensures
            self@.service_name.len() == 0 ==> error_of(r) == Some(empty_service_name()),
            self@.service_name.len() != 0 ==> r is Ok,
    {
        if self.service_name.as_str().is_empty() {
            Err(
                ConfigError::Validation {
                    field: "service_name".to_owned(),
                    message: "cannot be empty".to_owned(),
                },
            )
        } else {
            Ok(())
        }
    }

    /// Overlay the variables of the environment on the configuration: the
    /// level, the service name and the runtime environment, each where its
    /// variable is set.
    pub fn merge_env(&mut self, vars: &EnvVars) -> (r: Result<(), ConfigError>)
        ensures
            (final(self)@, error_of(r)) == overlay(old(self)@, *vars),
    {
        match pick(&vars.tyl_log_level, &vars.log_level) {
            Some(value) => {
                let upper = to_uppercase(value);
                match LogLevel::from_uppercase(upper.as_str()) {
                    Some(level) => {
                        self.level = level;
                    },
                    None => {
                        let message = String::from_str("invalid log level: ").concat(value);
                        return Err(ConfigError::Configuration { message });
                    },
                }
            },
            None => {},
        }
        match pick(&vars.tyl_service_name, &vars.service_name) {
            Some(value) => {
                self.service_name = value.to_owned();
            },
            None => {},
        }
        match pick(&vars.tyl_environment, &vars.environment) {
            Some(value) => {
                let lower = to_lowercase(value);
                match Environment::from_lowercase(lower.as_str()) {
                    Some(environment) => {
                        self.environment = environment;
                    },
                    None => {
                        let message = String::from_str("invalid environment: ").concat(value);
                        return Err(ConfigError::Configuration { message });
                    },
                }
            },
            None => {},
        }
        Ok(())
    }

    /// The configuration that the environment alone describes: that of a
    /// service named "app", overlaid with the variables.
    pub fn from_env(&self, vars: &EnvVars) -> (r: Result<LoggingConfig, ConfigError>)
        ensures
            match r {
                Ok(config) => overlay(initial("app"@, *vars), *vars) == (
                    config@,
                    None::<ConfigErrorView>,
                ),
                Err(error) => overlay(initial("app"@, *vars), *vars).1 == Some(error@),
            },
    {
        let mut config = LoggingConfig::new("app", vars);
        match config.merge_env(vars) {
            Ok(()) => Ok(config),
            Err(error) => Err(error),
        }
    }
}

/// Whether every variable that is set can be read: the level names a level
/// and the runtime environment names an environment, each whatever the case
/// of its letters. The service name can always be read.
pub open spec fn readable(vars: EnvVars) -> bool {
    &&& vars.level_value() matches Some(value) ==> level_named(uppercase(value)) is Some
    &&& vars.environment_value() matches Some(value) ==> environment_named(lowercase(value))
        is Some
}

/// An overlay ends well exactly when every variable that is set can be read.
pub proof fn lemma_overlay_ends_well_when_readable(config: LoggingConfigView, vars: EnvVars)
    ensures
        overlay(config, vars).1 is None <==> readable(vars),
{
}

/// Where none of the variables is set, the overlay leaves the configuration
/// as it was.
pub proof fn lemma_overlay_of_nothing(config: LoggingConfigView, vars: EnvVars)
    requires
        vars.level_value() is None,
        vars.name_value() is None,
        vars.environment_value() is None,
    ensures
        overlay(config, vars) == (config, None::<ConfigErrorView>),
{
}

/// A configuration that was overlaid without an error stays as it is when
/// the same variables are overlaid once more.
pub proof fn lemma_overlay_twice(config: LoggingConfigView, vars: EnvVars)
    requires
        overlay(config, vars).1 is None,
    ensures
        overlay(overlay(config, vars).0, vars) == overlay(config, vars),
{
}

} // verus!
