//! Settings of a chat bot: the record of its six settings, a builder that
//! stages overrides over the defaults, and the key under which a host keeps the
//! one shared record.

pub mod builder;
pub mod config;
pub mod laws;
pub mod seconds;

pub use builder::{ConfigBuilder, ConfigBuilderView};
pub use config::{ConfigStore, Configuration, ConfigurationView, DEFAULT_ASSETS_DIR};
pub use seconds::Seconds;
