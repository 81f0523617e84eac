//! The state that the handlers of an application share: its configuration,
//! and the pool of database connections if there is one.

use crate::result::AppError;
use vstd::prelude::*;
use vstd::string::*;

verus! {

/// `server_env_config::Config`, the configuration of a server. It is carried
/// along and never looked into.
#[verifier::external_type_specification]
#[verifier::external_body]
pub struct ExConfig(server_env_config::Config);

/// `Clone::clone` of a `Config`. Nothing is claimed of the copy.
pub assume_specification[ <server_env_config::Config as Clone>::clone ](
    config: &server_env_config::Config,
) -> (copy: server_env_config::Config)
;

/// The configuration of an application and its pool of database
/// connections, of whatever type `P` the driver's pools are. A state without
/// a pool is for applications that open a connection of their own for each
/// piece of work.
#[derive(Debug, Clone)]
pub struct AppState<P> {
    pub pool: Option<P>,
    pub config: server_env_config::Config,
}

/// How a failure to set up the pool is told.
pub open spec fn is_setup_failure(message: Seq<char>) -> bool {
    "Failed to connect to the database: "@.is_prefix_of(message)
}

/// Formats the error with `{:?}`, which writes the name of its variant and
/// what the `Debug` of the driver's or the other error writes. Nothing is
/// claimed of the text.
#[verifier::external_body]
fn debug_text(error: &AppError) -> (text: String) {
    format!("{:?}", error)
}

impl<P> AppState<P> {
    /// The state of an application whose pool was set up, or the message
    /// that tells why it could not be: `pool` is what setting up the pool
    /// for `config` came to. A pool connects only when it is first used,
    /// so a state with a pool is no proof that the database can be reached.
    pub fn init(config: server_env_config::Config, pool: Result<P, AppError>) -> (state: Result<
        AppState<P>,
        String,
    >)
        ensures
            match pool {
                Ok(pool) => state == Ok::<AppState<P>, String>(
                    AppState { pool: Some(pool), config },
                ),
                Err(_) => state matches Err(message) && is_setup_failure(message@),
            },
    {
        match pool {
            Ok(pool) => Ok(AppState { pool: Some(pool), config }),
            Err(error) => {
                let mut message = String::from_str("Failed to connect to the database: ");
                message.append(debug_text(&error).as_str());
                Err(message)
            },
        }
    }

    /// The state of an application without a pool.
    pub fn new(config: server_env_config::Config) -> (state: AppState<P>)
        ensures
            state.pool is None,
            state.config == config,
    {
        AppState { config, pool: None }
    }

    /// The pool to begin a transaction on. A state without a pool has none
    /// to give, and says so with a validation error instead of failing in
    /// any other way.
    pub fn get_pool(&self) -> (pool: Result<&P, AppError>)
        ensures
            match self.pool {
                Some(own) => pool == Ok::<&P, AppError>(&own),
                None => pool matches Err(AppError::StaticValidation(message)) && message@
                    == "Pool not initialized"@,
            },
    {
        match &self.pool {
            Some(pool) => Ok(pool),
            None => Err(AppError::StaticValidation("Pool not initialized")),
        }
    }
}

} // verus!
