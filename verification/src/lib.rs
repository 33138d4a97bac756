//! Backend utilities for a desktop stock-taking application: password
//! hashing and verification, resolution of the database file location, and
//! the path logic behind database backup.

pub mod credentials;
pub mod db_path;

pub use credentials::hash_password;
pub use credentials::verify_password;
pub use db_path::get_db_path;
