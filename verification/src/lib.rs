//! Decision logic of a dynamic-DNS updater.

pub mod address;
pub mod config;
pub mod dns_provider;
pub mod ip_provider;
pub mod text;
pub mod update_loop;
