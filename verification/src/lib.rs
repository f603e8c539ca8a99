pub mod commands;
pub mod config;
pub mod decode;
pub mod dispatch;
pub mod features;
pub mod focus;
pub mod host;
pub mod json;
pub mod message;
pub mod package;
pub mod path;
pub mod reactor;
pub mod server;
pub mod session;
pub mod settings;
pub mod source;
pub mod store;
pub mod sync;
pub mod text;
pub mod uri;
pub mod work;
