pub mod backend;
pub mod db_connection;
pub mod statement;
pub mod transaction;
