//! Data import and query logic for a weather database: the binary data files
//! that seed it, the progress report of an import, and the SQL that a
//! PostgreSQL client sends for it.

pub mod database_connection;
pub mod database_initializer;
