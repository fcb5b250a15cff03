use app_catalog::config::{ConfigError, EnvReader, Environment, ServerConfig};
use app_catalog::repository::{ApplicationRepository, StoreRead};
use app_catalog::services::{ApplicationService, Services};

fn text(value: &str) -> Option<String> {
    Some(String::from(value))
}

/// The least that must be set.
fn environment() -> Environment {
    Environment {
        server_host: None,
        server_port: None,
        mongodb_database_name: text("catalog"),
        mongodb_connection_string: text("mongodb://localhost:27017"),
        max_fetch_limit: None,
        applications_collection: text("applications"),
        server_workers: None,
        server_context: None,
    }
}

fn services(collection: &str) -> Services {
    Services::new(ApplicationService::new(ApplicationRepository::new(String::from(collection))))
}

fn error_of(env: Environment) -> ConfigError {
    EnvReader::new().read_server_config(env).unwrap_err()
}

#[test]
fn configuration_holds_its_parts() {
    let config =
        ServerConfig::new("127.0.0.1", 9000, "db", 25, 4, services("apps"), "https://x.org");
    assert_eq!(config.host, "127.0.0.1");
    assert_eq!(config.port, 9000);
    assert_eq!(config.database_name, "db");
    assert_eq!(config.max_fetch_limit, 25);
    assert_eq!(config.workers, 4);
    assert_eq!(config.services, services("apps"));
    assert_eq!(config.server_context, "https://x.org");
}

#[test]
fn unset_variables_take_their_defaults() {
    let settings = EnvReader::new().read_server_config(environment()).unwrap();
    assert_eq!(settings.connection_string, "mongodb://localhost:27017");
    assert_eq!(
        settings.config,
        ServerConfig::new(
            "0.0.0.0",
            80,
            "catalog",
            100,
            0,
            services("applications"),
            "http://0.0.0.0:80"
        )
    );
}

#[test]
fn set_variables_are_taken() {
    let env = Environment {
        server_host: text("10.1.2.3"),
        server_port: text("8443"),
        mongodb_database_name: text("store"),
        mongodb_connection_string: text("mongodb+srv://user@cluster/"),
        max_fetch_limit: text("250"),
        applications_collection: text("apps"),
        server_workers: text("8"),
        server_context: text("https://catalog.example.org"),
    };
    let settings = EnvReader::new().read_server_config(env).unwrap();
    assert_eq!(settings.connection_string, "mongodb+srv://user@cluster/");
    assert_eq!(
        settings.config,
        ServerConfig::new(
            "10.1.2.3",
            8443,
            "store",
            250,
            8,
            services("apps"),
            "https://catalog.example.org"
        )
    );
}

#[test]
fn configured_services_read_the_configured_collection() {
    let mut env = environment();
    env.applications_collection = text("released");
    let settings = EnvReader::new().read_server_config(env).unwrap();
    assert_eq!(
        settings.config.services.application_service.get_by_id("a").read,
        StoreRead::ByKey { collection: String::from("released"), key: String::from("a") }
    );
}

#[test]
fn default_context_is_made_of_host_and_port() {
    let mut env = environment();
    env.server_host = text("catalog.local");
    env.server_port = text("65535");
    let settings = EnvReader::new().read_server_config(env).unwrap();
    assert_eq!(settings.config.server_context, "http://catalog.local:65535");
}

#[test]
fn numbers_are_trimmed_before_they_are_read() {
    let mut env = environment();
    env.server_port = text(" 8080\n");
    env.max_fetch_limit = text("\t+30 ");
    env.server_workers = text("  -2  ");
    let settings = EnvReader::new().read_server_config(env).unwrap();
    assert_eq!(settings.config.port, 8080);
    assert_eq!(settings.config.max_fetch_limit, 30);
    assert_eq!(settings.config.workers, -2);
}

#[test]
fn port_that_is_no_port_is_refused() {
    for port in ["", "http", "-1", "65536", "80 80", "8080.0"] {
        let mut env = environment();
        env.server_port = text(port);
        assert_eq!(error_of(env), ConfigError::InvalidPort);
    }
}

#[test]
fn missing_database_name_is_refused() {
    let mut env = environment();
    env.mongodb_database_name = None;
    assert_eq!(error_of(env), ConfigError::MissingDatabaseName);
}

#[test]
fn missing_connection_string_is_refused() {
    let mut env = environment();
    env.mongodb_connection_string = None;
    assert_eq!(error_of(env), ConfigError::MissingConnectionString);
}

#[test]
fn page_size_that_is_no_number_is_refused() {
    for limit in ["", "many", "1e3", "9223372036854775808", "12.5"] {
        let mut env = environment();
        env.max_fetch_limit = text(limit);
        assert_eq!(error_of(env), ConfigError::InvalidMaxFetchLimit);
    }
}

#[test]
fn page_size_that_is_not_positive_is_refused() {
    for limit in ["0", "-1", "-9223372036854775808", " -0 "] {
        let mut env = environment();
        env.max_fetch_limit = text(limit);
        assert_eq!(error_of(env), ConfigError::MaxFetchLimitNotPositive);
    }
}

#[test]
fn missing_collection_is_refused() {
    let mut env = environment();
    env.applications_collection = None;
    assert_eq!(error_of(env), ConfigError::MissingCollection);
}

#[test]
fn workers_that_are_no_number_are_refused() {
    let mut env = environment();
    env.server_workers = text("all");
    assert_eq!(error_of(env), ConfigError::InvalidWorkers);
}

#[test]
fn first_defect_is_the_one_reported() {
    let broken = Environment {
        server_host: None,
        server_port: text("x"),
        mongodb_database_name: None,
        mongodb_connection_string: None,
        max_fetch_limit: text("x"),
        applications_collection: None,
        server_workers: text("x"),
        server_context: None,
    };
    assert_eq!(error_of(broken.clone()), ConfigError::InvalidPort);
    let broken = Environment { server_port: None, ..broken };
    assert_eq!(error_of(broken.clone()), ConfigError::MissingDatabaseName);
    let broken = Environment { mongodb_database_name: text("db"), ..broken };
    assert_eq!(error_of(broken.clone()), ConfigError::MissingConnectionString);
    let broken = Environment { mongodb_connection_string: text("mongodb://h"), ..broken };
    assert_eq!(error_of(broken.clone()), ConfigError::InvalidMaxFetchLimit);
    let broken = Environment { max_fetch_limit: text("0"), ..broken };
    assert_eq!(error_of(broken.clone()), ConfigError::MaxFetchLimitNotPositive);
    let broken = Environment { max_fetch_limit: text("1"), ..broken };
    assert_eq!(error_of(broken.clone()), ConfigError::MissingCollection);
    let broken = Environment { applications_collection: text("apps"), ..broken };
    assert_eq!(error_of(broken.clone()), ConfigError::InvalidWorkers);
    let mended = Environment { server_workers: None, ..broken };
    assert!(EnvReader::new().read_server_config(mended).is_ok());
}

#[test]
fn errors_say_what_is_wrong() {
    assert_eq!(ConfigError::InvalidPort.message(), "SERVER_PORT must be a valid u16");
    assert_eq!(
        ConfigError::MissingDatabaseName.message(),
        "MONGODB_DATABASE_NAME has not been specified"
    );
    assert_eq!(
        ConfigError::MissingConnectionString.message(),
        "MONGODB_CONNECTION_STRING has not been specified"
    );
    assert_eq!(ConfigError::InvalidMaxFetchLimit.message(), "MAX_FETCH_LIMIT must be a number");
    assert_eq!(
        ConfigError::MaxFetchLimitNotPositive.message(),
        "MAX_FETCH_LIMIT must be positive"
    );
    assert_eq!(
        ConfigError::MissingCollection.message(),
        "APPLICATIONS_COLLECTION has not been specified"
    );
    assert_eq!(ConfigError::InvalidWorkers.message(), "SERVER_WORKERS must be a number");
}
