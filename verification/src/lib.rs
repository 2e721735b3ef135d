pub mod text;
pub mod encoding;
pub mod config;
pub mod diagnostics;
pub mod urls;
pub mod controller;
pub mod monitor;
pub mod json;
pub mod clients;
pub mod bitcomet;
pub mod detect;
pub mod server;
pub mod legacy;
pub mod shell;
pub mod wide;
