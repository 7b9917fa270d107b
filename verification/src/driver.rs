pub mod prefix;
pub mod sqlx_common;
pub mod sqlx_postgres;
pub mod sqlx_sqlite;
