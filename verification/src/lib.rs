//! Drive Internet Download Manager (IDM) from Rust: the request model, the
//! argument list handed to IDM's link transmitter, the `idm.ini` settings and
//! the command-line decisions, each with a verified contract.

pub mod cli;
pub mod com;
pub mod config;
pub mod request;
pub mod text;
pub mod window;

pub use config::Config;
pub use request::{DownloadMode, SendLinkRequest};
