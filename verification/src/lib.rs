//! Verified core of a spreadsheet-like database: permission bitmasks,
//! typed cell values, field and base models, token encryption and the
//! pure decisions of the table service.

pub mod bits;
pub mod ids;
pub mod permissions;
pub mod text;
pub mod decimal;
pub mod time;
pub mod field;
pub mod cell;
pub mod errors;
pub mod user;
pub mod crypter;
pub mod base;
pub mod service;
pub mod table;
pub mod input;
pub mod kinds;
