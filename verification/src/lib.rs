//! The logic of a terminal explorer for JSON-lines log files.
pub mod install;
pub mod json;
pub mod layout;
pub mod lines;
pub mod message;
pub mod number;
pub mod record;
pub mod release;
pub mod replace;
pub mod text;
pub mod update;
pub mod version;
pub mod viewer;
