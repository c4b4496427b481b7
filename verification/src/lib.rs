//! Account and machine-identity management for the Cursor editor.
pub mod text;
pub mod account;
pub mod storage;
pub mod machine_id;
pub mod cursor_auth;
pub mod backup;
pub mod js_patch;
pub mod reset;
pub mod complete;
pub mod registration;
pub mod mail_code;
pub mod batch;
pub mod sqlite_fields;
pub mod session;
pub mod paths;
pub mod commands;
pub mod process;
pub mod dashboard;
mod deps;
