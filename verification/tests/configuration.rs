use tradesalsa::configuration::{
    DatabaseSettings, Environment, SslMode, TestSettings, UNSUPPORTED_ENVIRONMENT,
};
use tradesalsa::constants::{email_templates, html_templates, route_paths, strings};
use tradesalsa::domain::user_password::SecretString;
use tradesalsa::startup::ApplicationBaseUrl;

#[test]
fn environment_names() {
    assert_eq!(Environment::Local.as_str(), "local");
    assert_eq!(Environment::Production.as_str(), "production");
}

#[test]
fn environment_from_its_name_in_any_case() {
    assert_eq!(Environment::try_from("local".to_string()), Ok(Environment::Local));
    assert_eq!(Environment::try_from("LOCAL".to_string()), Ok(Environment::Local));
    assert_eq!(Environment::try_from("Production".to_string()), Ok(Environment::Production));
    assert_eq!(Environment::try_from("pRoDuCtIoN".to_string()), Ok(Environment::Production));
}

#[test]
fn unsupported_environment_is_named_in_lower_case() {
    assert_eq!(
        Environment::try_from("Staging".to_string()),
        Err("staging is not a supported environment. Use either `local` or `production`."
            .to_string())
    );
    assert_eq!(
        Environment::try_from("".to_string()),
        Err(" is not a supported environment. Use either `local` or `production`.".to_string())
    );
    assert!(Environment::try_from(" local".to_string()).is_err());
    assert!(Environment::try_from("locale".to_string()).is_err());
}

#[test]
fn environment_name_is_taken_as_it_stands() {
    assert_eq!(Environment::from_name("local"), Ok(Environment::Local));
    assert_eq!(Environment::from_name("production"), Ok(Environment::Production));
    assert_eq!(
        Environment::from_name("LOCAL"),
        Err(format!("LOCAL{}", UNSUPPORTED_ENVIRONMENT))
    );
}

#[test]
fn environment_defaults_to_local() {
    assert_eq!(Environment::from_variable(None), Ok(Environment::Local));
    assert_eq!(
        Environment::from_variable(Some("PRODUCTION".to_string())),
        Ok(Environment::Production)
    );
    assert!(Environment::from_variable(Some("test".to_string())).is_err());
}

#[test]
fn settings_file_of_an_environment() {
    assert_eq!(Environment::Local.settings_file(), "local.yaml");
    assert_eq!(Environment::Production.settings_file(), "production.yaml");
}

fn database(require_ssl: bool) -> DatabaseSettings {
    DatabaseSettings {
        username: "postgres".to_string(),
        password: SecretString::new("password".to_string()),
        port: 5432,
        host: "127.0.0.1".to_string(),
        database_name: "tradesalsa".to_string(),
        require_ssl,
    }
}

#[test]
fn connection_without_a_database() {
    let settings = database(true);
    let options = settings.without_db();
    assert_eq!(options.host, "127.0.0.1");
    assert_eq!(options.username, "postgres");
    assert_eq!(options.port, 5432);
    assert_eq!(options.ssl_mode, SslMode::Require);
    assert_eq!(options.database, None);
    assert!(!options.trace_statements);
    assert!(std::ptr::eq(options.password, &settings.password));

    assert_eq!(database(false).without_db().ssl_mode, SslMode::Prefer);
}

#[test]
fn connection_with_the_database() {
    let settings = database(false);
    let options = settings.with_db();
    assert_eq!(options.host, "127.0.0.1");
    assert_eq!(options.username, "postgres");
    assert_eq!(options.port, 5432);
    assert_eq!(options.ssl_mode, SslMode::Prefer);
    assert_eq!(options.database, Some("tradesalsa"));
    assert!(options.trace_statements);

    assert_eq!(database(true).with_db().ssl_mode, SslMode::Require);
}

#[test]
fn plain_settings() {
    let settings = TestSettings { secret_key: "k".to_string() };
    assert_eq!(settings.clone().secret_key, "k");
    let base = ApplicationBaseUrl("http://127.0.0.1".to_string());
    assert_eq!(base.0, "http://127.0.0.1");
}

#[test]
fn names_and_texts() {
    assert_eq!(html_templates::REGISTER, "register.html");
    assert_eq!(html_templates::LOGIN, "login.html");
    assert_eq!(html_templates::HOMEPAGE, "homepage.html");
    assert_eq!(html_templates::E500, "500.html");
    assert_eq!(email_templates::EMAIL_VERIFICATION, "emails/email_verification.html");
    assert_eq!(strings::WELCOME_EMAIL_SUBJECT, "Welcome to TradeSalsa!");
    assert_eq!(strings::INTERNAL_SERVER_ERROR, "Internal Server Error");
    assert_eq!(strings::REGISTER_ACCOUNT_SUCCESS, "Successfully registered account!");
    assert_eq!(strings::INVALID_CREDENTIALS, "Invalid Credentials");
    assert_eq!(strings::FAILED_TO_COMPILE_SCSS, "Failed to compile SCSS");
    assert_eq!(strings::FAILED_TO_WRITE_SCSS, "Failed to write SCSS");
    assert_eq!(route_paths::ROOT, "/");
    assert_eq!(route_paths::REGISTER, "/register");
    assert_eq!(route_paths::LOGIN, "/login");
    assert_eq!(route_paths::LOGOUT, "/logout");
    assert_eq!(route_paths::HEALTH, "/health");
    assert_eq!(route_paths::PROTECTED, "/protected");
}
