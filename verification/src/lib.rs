//! Validation of a site's configuration: a loosely typed document tree goes
//! in, a strictly typed record or a structured diagnostic comes out.
//!
//! [`config::site_info::SiteInfo::from_yaml`] is the way in. It reads a
//! [`config::document::Mapping`], takes the fields in a fixed order and
//! stops at the first that fails, with a [`config::diagnostic::Diagnostic`]
//! that names the key and holds the container. The URL and the default
//! timezone are handed to validators outside this library; every other
//! step is proved against its definition.

pub mod cli;
pub mod config;
