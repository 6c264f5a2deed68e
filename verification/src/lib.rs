//! Loads the configuration of a personal content-serving site: server bind
//! settings, wiki and blog sources, contact handles and front-page texts are
//! read from a declarative document against a fixed schema, and an absent
//! webhook secret may be filled, once, from a value the caller read from the
//! environment. Opening and reading the file is the caller's: a missing file
//! is a fatal startup condition there, while a malformed document comes back
//! as a typed parse error from here.

pub mod config;
pub mod yaml;

pub use config::Blog;
pub use config::Config;
pub use config::Contact;
pub use config::Content;
pub use config::IndexPage;
pub use config::ParseError;
pub use config::Server;
pub use config::Wiki;
pub use yaml::Yaml;
