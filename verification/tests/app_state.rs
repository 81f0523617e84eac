use actix_contrib_rest::app_state::AppState;
use actix_contrib_rest::result::AppError;
use server_env_config::db::DbConfig;
use server_env_config::env::Environment;
use server_env_config::server::HttpServerConfig;
use server_env_config::Config;
use std::time::Duration;

fn config() -> Config {
    Config {
        env: Environment::Test,
        server: HttpServerConfig {
            addr: String::from("127.0.0.1"),
            port: 8000,
            uri: String::new(),
            url: String::from("http://127.0.0.1:8000/"),
        },
        db: DbConfig {
            database_url: String::from("postgres://localhost/app_test"),
            min_connections: 1,
            max_connections: 10,
            acquire_timeout: Duration::from_millis(750),
            idle_timeout: Duration::from_secs(300),
            test_before_acquire: false,
        },
    }
}

#[test]
fn new_state_has_no_pool() {
    let state: AppState<String> = AppState::new(config());
    assert!(state.pool.is_none());
    assert_eq!(state.config.db.database_url, "postgres://localhost/app_test");
    assert_eq!(state.config.server.port, 8000);
}

#[test]
fn state_without_pool_fails_with_validation_error() {
    let state: AppState<String> = AppState::new(config());
    match state.get_pool() {
        Err(AppError::StaticValidation(message)) => assert_eq!(message, "Pool not initialized"),
        other => panic!("unexpected {:?}", other),
    }
    assert_eq!(state.get_pool().unwrap_err().status_code(), 400);
}

#[test]
fn state_with_pool_hands_it_out() {
    let state = AppState::init(config(), Ok(String::from("pool"))).unwrap();
    assert_eq!(state.pool, Some(String::from("pool")));
    assert_eq!(state.get_pool().unwrap(), "pool");
    assert_eq!(state.config.db.max_connections, 10);
}

#[test]
fn init_tells_why_the_pool_could_not_be_set_up() {
    let failure = AppError::DB(sqlx::Error::Configuration("relative URL without a base".into()));
    let state: Result<AppState<String>, String> = AppState::init(config(), Err(failure));
    let message = state.unwrap_err();
    assert!(message.starts_with("Failed to connect to the database: "));
    assert!(message.contains("relative URL without a base"));
    assert_eq!(
        message,
        format!(
            "Failed to connect to the database: {:?}",
            AppError::DB(sqlx::Error::Configuration("relative URL without a base".into()))
        )
    );
}

#[test]
fn state_clone_shares_configuration() {
    let state = AppState::init(config(), Ok(7u8)).unwrap();
    let copy = state.clone();
    assert_eq!(copy.pool, Some(7));
    assert_eq!(copy.config.db.database_url, state.config.db.database_url);
}
