//! Import pipeline for third-party dictionary archives: parsing and
//! validation of the exchange format (index, term banks, tag banks, and the
//! recursive structured-content document trees), and a transactional
//! dictionary store with generated identifiers.

pub mod db;
pub mod error;
pub mod ext;
pub mod json;
pub mod num;
pub mod schemas;
pub mod text;
pub mod util;
