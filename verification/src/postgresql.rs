//! Front end of a PostgreSQL proxy.
//!
//! The library's part is the pure one: holding the connection settings and
//! rewriting a query before it is forwarded.  Opening the connection and
//! relaying traffic is network work and lives outside the library.

use vstd::prelude::*;

verus! {

/// Connection settings for a backing PostgreSQL store.
pub struct PostgreSQLConfig {
    /// Host address.
    pub host: String,
    /// Port number.
    pub port: u16,
    /// Database name.
    pub database: String,
    /// User name.
    pub username: String,
    /// Password.
    pub password: String,
}

impl Clone for PostgreSQLConfig {
    fn clone(&self) -> (r: Self)
        ensures
            r == *self,
    {
        PostgreSQLConfig {
            host: self.host.clone(),
            port: self.port,
            database: self.database.clone(),
            username: self.username.clone(),
            password: self.password.clone(),
        }
    }
}

impl PostgreSQLConfig {
    /// Connection settings from their parts.
    pub fn new(host: &str, port: u16, database: &str, username: &str, password: &str) -> (r: Self)
        ensures
            r.host@ == host@,
            r.port == port,
            r.database@ == database@,
            r.username@ == username@,
            r.password@ == password@,
    {
        PostgreSQLConfig {
            host: host.to_owned(),
            port,
            database: database.to_owned(),
            username: username.to_owned(),
            password: password.to_owned(),
        }
    }
}

/// A proxy in front of a PostgreSQL store: queries pass through
/// [`PostgreSQLProxy::execute_query`] before they reach the database.
pub struct PostgreSQLProxy {
    config: PostgreSQLConfig,
}

impl PostgreSQLProxy {
    /// The settings this proxy was created with.
    pub closed spec fn spec_config(&self) -> PostgreSQLConfig {
        self.config
    }

    /// A proxy over the given connection settings.
    pub fn new(config: PostgreSQLConfig) -> (r: Self)
        ensures
            r.spec_config() == config,
    {
        PostgreSQLProxy { config }
    }

    /// The connection settings, for the layer that opens the connection.
    pub fn config(&self) -> (r: &PostgreSQLConfig)
        ensures
            *r == self.spec_config(),
    {
        &self.config
    }

    /// The query text to forward to the store: the query itself when no
    /// condition applies, and the structurally rewritten statement — the
    /// condition `AND`-ed into its filtering clause — when one does.
    pub fn execute_query(&self, query: &str, condition: Option<&str>) -> (r: Result<
        String,
        crate::sql::SqlError,
    >)
        ensures
            match condition {
                Option::Some(c) => crate::sql::rewrite_matches(
                    r,
                    crate::sql::rewrite_result(query@, c@),
                ),
                Option::None => r matches Ok(t) && t@ == query@,
            },
    {
        match condition {
            Some(c) => crate::sql::add_where_condition(query, c),
            None => Ok(query.to_owned()),
        }
    }
}

} // verus!
