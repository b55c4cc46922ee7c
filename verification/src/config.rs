use vstd::prelude::*;
use vstd::string::*;

verus! {

/// Application-wide configuration.
#[derive(Clone, Debug)]
pub struct AppConfig {
    pub mongodb_uri: String,
    pub database_name: String,
    pub jwt_secret: String,
}

/// The given value, or the fallback where none is given.
pub open spec fn value_or(given: Option<String>, fallback: Seq<char>) -> Seq<char> {
    match given {
        Some(value) => value@,
        None => fallback,
    }
}

/// The given value, or the fallback where none is given.
pub fn or_default(given: Option<String>, fallback: &str) -> (value: String)
    ensures
        value@ == value_or(given, fallback@),
{
    match given {
        Some(value) => value,
        None => String::from_str(fallback),
    }
}

impl AppConfig {
    /// The configuration from what the environment holds under
    /// `DATABASE_URL`, `DATABASE_NAME` and `JWT_SECRET`, each with its
    /// fallback where the environment holds nothing.
    pub fn from_environment(
        database_url: Option<String>,
        database_name: Option<String>,
        jwt_secret: Option<String>,
    ) -> (config: AppConfig)
        ensures
            config.mongodb_uri@ == value_or(database_url, "mongodb://localhost:27017"@),
            config.database_name@ == value_or(database_name, "polling_application"@),
            config.jwt_secret@ == value_or(jwt_secret, "thisisthemostsecuresecret"@),
    {
        AppConfig {
            mongodb_uri: or_default(database_url, "mongodb://localhost:27017"),
            database_name: or_default(database_name, "polling_application"),
            jwt_secret: or_default(jwt_secret, "thisisthemostsecuresecret"),
        }
    }
}

} // verus!
