//! Classifies an email address as unwanted when its domain is on a denylist.

pub mod config;
pub mod domain_checker;

pub use config::Config;
pub use domain_checker::{extract_domain, is_email_unwanted};
