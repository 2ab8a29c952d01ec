pub mod command;
pub mod config;
pub mod discord;
pub mod error;
pub mod monitor;
pub mod text;
pub mod types;

pub use config::Config;
pub use error::PulseError;
pub use monitor::Monitor;
pub use types::MonitorConfig;
