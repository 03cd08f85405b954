//! Control-plane logic of the Baia WAF core: configuration validation,
//! reverse-proxy configuration generation, DNS planning, component catalog
//! and the administrative session rules.

pub mod json;
pub mod text;
pub mod rules;
pub mod caddy;
pub mod net;
pub mod cloudflare;
pub mod ca_identification;
pub mod auth;
pub mod server;
pub mod config;
pub mod components;
pub mod api;
