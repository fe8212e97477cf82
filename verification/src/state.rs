//! Process-wide configuration: set once at startup, read-only afterwards.

use crate::error::AppError;
use vstd::prelude::*;

verus! {

/// A value the process must be given before it may start.
#[derive(Clone, Copy, Debug, PartialEq, Eq, Structural)]
pub enum Setting {
    /// The shared secret of the GPS route.
    GpsPushToken,
    /// The shared secret of the generic data route.
    EmbeddedToken,
    /// The user the store is queried as.
    StoreUser,
    /// The key that user authenticates with.
    StorePassword,
}

/// Name of the environment variable holding the GPS secret.
pub const GPS_PUSH_TOKEN: &'static str = "GPS_PUSH_TOKEN";

/// Name of the environment variable holding the generic-route secret.
pub const EMBEDDED_TOKEN: &'static str = "EMBEDDED_TOKEN";

/// Name of the environment variable holding the store user.
pub const CLICKHOUSE_USER: &'static str = "CLICKHOUSE_USER";

/// Name of the environment variable holding the store key.
pub const CLICKHOUSE_PASSWORD: &'static str = "CLICKHOUSE_PASSWORD";

impl Setting {
    /// The environment variable this setting is read from.
    pub open spec fn variable(self) -> Seq<char> {
        match self {
            Setting::GpsPushToken => GPS_PUSH_TOKEN@,
            Setting::EmbeddedToken => EMBEDDED_TOKEN@,
            Setting::StoreUser => CLICKHOUSE_USER@,
            Setting::StorePassword => CLICKHOUSE_PASSWORD@,
        }
    }

    /// The environment variable this setting is read from.
    pub fn env_name(self) -> (name: &'static str)
        ensures
            name@ == self.variable(),
    {
        match self {
            Setting::GpsPushToken => GPS_PUSH_TOKEN,
            Setting::EmbeddedToken => EMBEDDED_TOKEN,
            Setting::StoreUser => CLICKHOUSE_USER,
            Setting::StorePassword => CLICKHOUSE_PASSWORD,
        }
    }
}

/// The secrets and credentials every route works with.
#[derive(Debug)]
pub struct AppState {
    pub gps_token: String,
    pub embedded_token: String,
    pub store_user: String,
    pub store_password: String,
}

/// The first setting, in the order the process asks for them, that has no
/// value; `None` when all four are there.
pub open spec fn first_missing(
    gps_token: Option<String>,
    embedded_token: Option<String>,
    store_user: Option<String>,
    store_password: Option<String>,
) -> Option<Setting> {
    if gps_token is None {
        Some(Setting::GpsPushToken)
    } else if embedded_token is None {
        Some(Setting::EmbeddedToken)
    } else if store_user is None {
        Some(Setting::StoreUser)
    } else if store_password is None {
        Some(Setting::StorePassword)
    } else {
        None
    }
}

impl AppState {
    /// Builds the configuration from what the environment held for each
    /// setting. A setting without a value is fatal: the first one missing is
    /// reported and no configuration exists.
    pub fn from_environment(
        gps_token: Option<String>,
        embedded_token: Option<String>,
        store_user: Option<String>,
        store_password: Option<String>,
    ) -> (state: Result<AppState, AppError>)
        ensures
            match first_missing(gps_token, embedded_token, store_user, store_password) {
                Some(setting) => state == Err::<AppState, AppError>(
                    AppError::ConfigurationMissing(setting),
                ),
                None => state == Ok::<AppState, AppError>(
                    (AppState {
                        gps_token: gps_token->0,
                        embedded_token: embedded_token->0,
                        store_user: store_user->0,
                        store_password: store_password->0,
                    }),
                ),
            },
    {
        let gps_token = match gps_token {
            Some(value) => value,
            None => return Err(AppError::ConfigurationMissing(Setting::GpsPushToken)),
        };
        let embedded_token = match embedded_token {
            Some(value) => value,
            None => return Err(AppError::ConfigurationMissing(Setting::EmbeddedToken)),
        };
        let store_user = match store_user {
            Some(value) => value,
            None => return Err(AppError::ConfigurationMissing(Setting::StoreUser)),
        };
        let store_password = match store_password {
            Some(value) => value,
            None => return Err(AppError::ConfigurationMissing(Setting::StorePassword)),
        };
        Ok(AppState { gps_token, embedded_token, store_user, store_password })
    }
}

} // verus!
