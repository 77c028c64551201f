//! Turns a database-extension project (a native static library plus one SQL
//! definition file) into an installable extension: the extension's identity
//! from its manifest, the native functions that the SQL file declares, the
//! registration source for them, and the ordered compile, link and deploy
//! steps, each with a verified contract.

pub mod datum;
pub mod error;
pub mod manifest;
pub mod scanner;
pub mod wrapper;
pub mod layout;
pub mod command;
pub mod driver;

pub use datum::{BpChar, Bytea, Text, VarChar};
