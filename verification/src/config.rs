//! The server's configuration, and how it is read from the environment.

use vstd::prelude::*;
use crate::repository::ApplicationRepository;
use crate::services::{ApplicationService, Services};
use crate::text::{
    decimal, parse_integer, push_decimal, spec_parse_integer, to_chars, trim, trim_bounds,
};

verus! {

/// What the server is run with. The connection to the store is not part of
/// it: whoever performs the reads holds it.
#[derive(Clone, Debug, PartialEq, Eq)]
pub struct ServerConfig {
    /// Address that the server binds to.
    pub host: String,
    /// Port that the server binds to.
    pub port: u16,
    /// Name of the database that holds the catalog.
    pub database_name: String,
    /// The largest page that a listing request is served with.
    pub max_fetch_limit: i64,
    /// Number of worker threads; a number that is not positive leaves the
    /// choice to the server.
    pub workers: i64,
    pub services: Services,
    /// Address under which callers reach the server, the root of every link
    /// that a reply holds.
    pub server_context: String,
}

impl ServerConfig {
    /// A configuration can be served with if its largest page holds at least
    /// one record.
    pub open spec fn is_valid(&self) -> bool {
        self.max_fetch_limit > 0
    }

    /// Puts a configuration together from its parts.
    pub fn new(
        host: &str,
        port: u16,
        database_name: &str,
        max_fetch_limit: i64,
        workers: i64,
        services: Services,
        server_context: &str,
    ) -> (config: ServerConfig)
        ensures
            config.host@ == host@,
            config.port == port,
            config.database_name@ == database_name@,
            config.max_fetch_limit == max_fetch_limit,
            config.workers == workers,
            config.services == services,
            config.server_context@ == server_context@,
    {
        ServerConfig {
            host: host.to_owned(),
            port,
            database_name: database_name.to_owned(),
            max_fetch_limit,
            workers,
            services,
            server_context: server_context.to_owned(),
        }
    }
}

/// The values of the environment variables that the configuration is read
/// from, each as it was found: `None` for a variable that is not set.
#[derive(Clone, Debug, PartialEq, Eq)]
pub struct Environment {
    /// `SERVER_HOST`
    pub server_host: Option<String>,
    /// `SERVER_PORT`
    pub server_port: Option<String>,
    /// `MONGODB_DATABASE_NAME`
    pub mongodb_database_name: Option<String>,
    /// `MONGODB_CONNECTION_STRING`
    pub mongodb_connection_string: Option<String>,
    /// `MAX_FETCH_LIMIT`
    pub max_fetch_limit: Option<String>,
    /// `APPLICATIONS_COLLECTION`
    pub applications_collection: Option<String>,
    /// `SERVER_WORKERS`
    pub server_workers: Option<String>,
    /// `SERVER_CONTEXT`
    pub server_context: Option<String>,
}

/// Model of an [`Environment`].
pub struct EnvironmentView {
    pub server_host: Option<Seq<char>>,
    pub server_port: Option<Seq<char>>,
    pub mongodb_database_name: Option<Seq<char>>,
    pub mongodb_connection_string: Option<Seq<char>>,
    pub max_fetch_limit: Option<Seq<char>>,
    pub applications_collection: Option<Seq<char>>,
    pub server_workers: Option<Seq<char>>,
    pub server_context: Option<Seq<char>>,
}

impl View for Environment {
    type V = EnvironmentView;

    open spec fn view(&self) -> EnvironmentView {
        EnvironmentView {
            server_host: self.server_host.deep_view(),
            server_port: self.server_port.deep_view(),
            mongodb_database_name: self.mongodb_database_name.deep_view(),
            mongodb_connection_string: self.mongodb_connection_string.deep_view(),
            max_fetch_limit: self.max_fetch_limit.deep_view(),
            applications_collection: self.applications_collection.deep_view(),
            server_workers: self.server_workers.deep_view(),
            server_context: self.server_context.deep_view(),
        }
    }
}

/// Why an environment gives no configuration.
#[derive(Clone, Copy, Debug, PartialEq, Eq)]
pub enum ConfigError {
    /// `SERVER_PORT` is set and is not the numeral of a port.
    InvalidPort,
    /// `MONGODB_DATABASE_NAME` is not set.
    MissingDatabaseName,
    /// `MONGODB_CONNECTION_STRING` is not set.
    MissingConnectionString,
    /// `MAX_FETCH_LIMIT` is set and is not the numeral of a 64-bit integer.
    InvalidMaxFetchLimit,
    /// `MAX_FETCH_LIMIT` is set to a number that is not positive.
    MaxFetchLimitNotPositive,
    /// `APPLICATIONS_COLLECTION` is not set.
    MissingCollection,
    /// `SERVER_WORKERS` is set and is not the numeral of a 64-bit integer.
    InvalidWorkers,
}

impl ConfigError {
    /// The error in words.
    pub fn message(&self) -> (text: String)
        ensures
            text@ == match *self {
                ConfigError::InvalidPort => "SERVER_PORT must be a valid u16"@,
                ConfigError::MissingDatabaseName => "MONGODB_DATABASE_NAME has not been specified"@,
                ConfigError::MissingConnectionString =>
                    "MONGODB_CONNECTION_STRING has not been specified"@,
                ConfigError::InvalidMaxFetchLimit => "MAX_FETCH_LIMIT must be a number"@,
                ConfigError::MaxFetchLimitNotPositive => "MAX_FETCH_LIMIT must be positive"@,
                ConfigError::MissingCollection => "APPLICATIONS_COLLECTION has not been specified"@,
                ConfigError::InvalidWorkers => "SERVER_WORKERS must be a number"@,
            },
    {
        match self {
            ConfigError::InvalidPort => String::from_str("SERVER_PORT must be a valid u16"),
            ConfigError::MissingDatabaseName => String::from_str(
                "MONGODB_DATABASE_NAME has not been specified",
            ),
            ConfigError::MissingConnectionString => String::from_str(
                "MONGODB_CONNECTION_STRING has not been specified",
            ),
            ConfigError::InvalidMaxFetchLimit => String::from_str(
                "MAX_FETCH_LIMIT must be a number",
            ),
            ConfigError::MaxFetchLimitNotPositive => String::from_str(
                "MAX_FETCH_LIMIT must be positive",
            ),
            ConfigError::MissingCollection => String::from_str(
                "APPLICATIONS_COLLECTION has not been specified",
            ),
            ConfigError::InvalidWorkers => String::from_str("SERVER_WORKERS must be a number"),
        }
    }
}

/// What the server starts with: its configuration, and the connection
/// string of the store.
#[derive(Clone, Debug, PartialEq, Eq)]
pub struct ServerSettings {
    pub config: ServerConfig,
    pub connection_string: String,
}

/// Model of a [`ServerSettings`]; `collection` is the collection that the
/// configured services read.
pub struct ServerSettingsView {
    pub host: Seq<char>,
    pub port: int,
    pub database_name: Seq<char>,
    pub connection_string: Seq<char>,
    pub max_fetch_limit: int,
    pub workers: int,
    pub collection: Seq<char>,
    pub server_context: Seq<char>,
}

impl View for ServerSettings {
    type V = ServerSettingsView;

    open spec fn view(&self) -> ServerSettingsView {
        ServerSettingsView {
            host: self.config.host@,
            port: self.config.port as int,
            database_name: self.config.database_name@,
            connection_string: self.connection_string@,
            max_fetch_limit: self.config.max_fetch_limit as int,
            workers: self.config.workers as int,
            collection: self.config.services.application_service.collection(),
            server_context: self.config.server_context@,
        }
    }
}

/// The number that a variable gives: `default` where it is not set, else the
/// integer between `min` and `max` whose numeral its value is once trimmed,
/// if it is one.
pub open spec fn spec_number(raw: Option<Seq<char>>, default: int, min: int, max: int) -> Option<
    int,
> {
    match raw {
        None => Some(default),
        Some(text) => spec_parse_integer(trim(text), min, max),
    }
}

/// The address that links are rooted at where none is configured.
pub open spec fn spec_default_context(host: Seq<char>, port: int) -> Seq<char> {
    "http://"@ + host + ":"@ + decimal(port)
}

/// The settings that an environment gives, or the first reason why it gives
/// none. Host, port, page size and workers default to `0.0.0.0`, 80, 100 and
/// 0; the server context defaults to the address made of host and port; the
/// names of the database and of the collection and the connection string
/// have no default.
pub open spec fn spec_read_server_config(env: EnvironmentView) -> Result<
    ServerSettingsView,
    ConfigError,
> {
    let host = match env.server_host {
        Some(host) => host,
        None => "0.0.0.0"@,
    };
    let port = spec_number(env.server_port, 80, 0, 65535);
    let max_fetch_limit = spec_number(
        env.max_fetch_limit,
        100,
        i64::MIN as int,
        i64::MAX as int,
    );
    let workers = spec_number(env.server_workers, 0, i64::MIN as int, i64::MAX as int);
    if port is None {
        Err(ConfigError::InvalidPort)
    } else if env.mongodb_database_name is None {
        Err(ConfigError::MissingDatabaseName)
    } else if env.mongodb_connection_string is None {
        Err(ConfigError::MissingConnectionString)
    } else if max_fetch_limit is None {
        Err(ConfigError::InvalidMaxFetchLimit)
    } else if max_fetch_limit->0 <= 0 {
        Err(ConfigError::MaxFetchLimitNotPositive)
    } else if env.applications_collection is None {
        Err(ConfigError::MissingCollection)
    } else if workers is None {
        Err(ConfigError::InvalidWorkers)
    } else {
        Ok(
            ServerSettingsView {
                host,
                port: port->0,
                database_name: env.mongodb_database_name->0,
                connection_string: env.mongodb_connection_string->0,
                max_fetch_limit: max_fetch_limit->0,
                workers: workers->0,
                collection: env.applications_collection->0,
                server_context: match env.server_context {
                    Some(context) => context,
                    None => spec_default_context(host, port->0),
                },
            },
        )
    }
}

fn read_number(raw: &Option<String>, default: i64, min: i64, max: i64) -> (number: Option<i64>)
    requires
        min <= 0 <= max,
        min <= default <= max,
    ensures
        spec_number(raw.deep_view(), default as int, min as int, max as int) == match number {
            Some(n) => Some(n as int),
            None => None,
        },
{
    match raw {
        None => Some(default),
        Some(text) => {
            let chars = to_chars(text.as_str());
            let (lo, hi) = trim_bounds(&chars);
            parse_integer(&chars, lo, hi, min, max)
        },
    }
}

/// Reads the server's configuration from the environment.
#[derive(Clone, Copy, Debug, PartialEq, Eq)]
pub struct EnvReader {}

impl EnvReader {
    /// A reader.
    pub fn new() -> (reader: EnvReader) {
        EnvReader {  }
    }

    /// Makes the server's settings of the values found in the environment,
    /// or says what is wrong with them. A configuration that is given can be
    /// served with.
    pub fn read_server_config(&self, env: Environment) -> (settings: Result<
        ServerSettings,
        ConfigError,
    >)
        ensures
            spec_read_server_config(env@) == match settings {
                Ok(s) => Ok(s@),
                Err(e) => Err(e),
            },
            settings matches Ok(s) ==> s.config.is_valid(),
    {
        let host = match env.server_host {
            Some(host) => host,
            None => String::from_str("0.0.0.0"),
        };
        let port: u16 = match read_number(&env.server_port, 80, 0, 65535) {
            Some(port) => port as u16,
            None => { return Err(ConfigError::InvalidPort); },
        };
        let database_name = match env.mongodb_database_name {
            Some(name) => name,
            None => { return Err(ConfigError::MissingDatabaseName); },
        };
        let connection_string = match env.mongodb_connection_string {
            Some(connection_string) => connection_string,
            None => { return Err(ConfigError::MissingConnectionString); },
        };
        let max_fetch_limit = match read_number(&env.max_fetch_limit, 100, i64::MIN, i64::MAX) {
            Some(limit) => limit,
            None => { return Err(ConfigError::InvalidMaxFetchLimit); },
        };
        if max_fetch_limit <= 0 {
            return Err(ConfigError::MaxFetchLimitNotPositive);
        }
        let collection = match env.applications_collection {
            Some(collection) => collection,
            None => { return Err(ConfigError::MissingCollection); },
        };
        let workers = match read_number(&env.server_workers, 0, i64::MIN, i64::MAX) {
            Some(workers) => workers,
            None => { return Err(ConfigError::InvalidWorkers); },
        };
        let server_context = match env.server_context {
            Some(context) => context,
            None => {
                let mut context = String::from_str("http://");
                context.append(host.as_str());
                context.append(":");
                push_decimal(&mut context, port as i64);
                context
            },
        };
        let services = Services::new(
            ApplicationService::new(ApplicationRepository::new(collection)),
        );
        let config = ServerConfig::new(
            host.as_str(),
            port,
            database_name.as_str(),
            max_fetch_limit,
            workers,
            services,
            server_context.as_str(),
        );
        Ok(ServerSettings { config, connection_string })
    }
}

} // verus!
