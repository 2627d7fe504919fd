//! A repository over a four-level administrative hierarchy
//! (province, regency, district, village) kept in a SQLite store, together
//! with the rules that turn each repository outcome into an HTTP response.

pub mod db;
pub mod decode;
pub mod handlers;
pub mod models;
pub mod sqlite;
pub mod statements;
pub mod sync;
