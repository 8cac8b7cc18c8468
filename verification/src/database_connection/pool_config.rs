use vstd::prelude::*;
use postgres::{Config, NoTls};
use r2d2_postgres::PostgresConnectionManager;

verus! {

#[verifier::external_type_specification]
#[verifier::external_body]
pub struct ExConfig(Config);

#[verifier::external_type_specification]
#[verifier::external_body]
pub struct ExNoTls(NoTls);

#[verifier::external_type_specification]
#[verifier::external_body]
#[verifier::reject_recursive_types(T)]
pub struct ExPostgresConnectionManager<T>(PostgresConnectionManager<T>);

/// Whether `postgres::Config` accepts `url` as a connection string.
pub uninterp spec fn postgres_config_accepts(url: Seq<char>) -> bool;

/// A configuration parsed from a connection string, with the string that it
/// was parsed from. Only `parse_config` makes one, so the string it carries
/// is the one that the configuration came from.
pub struct ParsedConfig {
    config: Config,
    source: Ghost<Seq<char>>,
}

impl ParsedConfig {
    /// The connection string that this configuration was parsed from.
    pub closed spec fn source(&self) -> Seq<char> {
        self.source@
    }
}

/// A connection manager, with the connection string that its configuration
/// was parsed from. Only `new_manager` makes one, from a `ParsedConfig`.
pub struct TracedManager {
    manager: PostgresConnectionManager<NoTls>,
    source: Ghost<Seq<char>>,
}

impl TracedManager {
    /// The connection string that this manager's configuration was parsed
    /// from.
    pub closed spec fn source(&self) -> Seq<char> {
        self.source@
    }

    /// Hands out the manager, to build a pool with.
    pub fn into_manager(self) -> PostgresConnectionManager<NoTls> {
        self.manager
    }
}

/// Calls `postgres::Config::from_str`, which parses a connection string. The
/// contract says that whether it accepts the string depends on the string
/// alone, and records the string with the configuration; what it accepts,
/// and what the configuration holds, are left unsaid.
#[verifier::external_body]
pub(crate) fn parse_config(url: &str) -> (parsed: Option<ParsedConfig>)
    ensures
        parsed is Some == postgres_config_accepts(url@),
        parsed matches Some(p) ==> p.source() == url@,
{
    match <Config as std::str::FromStr>::from_str(url) {
        Ok(config) => Some(ParsedConfig { config, source: Ghost(url@) }),
        Err(_) => None,
    }
}

/// Calls `r2d2_postgres::PostgresConnectionManager::new`, which pairs a
/// configuration with the plain-TCP mode. The contract says that the manager
/// keeps the connection string of the configuration; nothing else is said.
#[verifier::external_body]
pub(crate) fn new_manager(parsed: ParsedConfig) -> (m: TracedManager)
    ensures
        m.source() == parsed.source(),
{
    TracedManager {
        manager: PostgresConnectionManager::new(parsed.config, NoTls),
        source: parsed.source,
    }
}

} // verus!
