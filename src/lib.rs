//! Startup of a small web service that ships its logs to Datadog: secret
//! lookup, the logging pipeline's parts, supervision of startup tasks and the
//! sequence that ties them together.

pub mod bootstrap;
pub mod config;
pub mod error;
pub mod http;
pub mod logging;
pub mod secrets;
pub mod supervise;
