//! A small push-notification library: a registry of configured providers,
//! selection of the providers to notify, derivation of the message to send,
//! and the shaping of one HTTP request per selected provider.

pub mod config;
pub mod dispatch;
pub mod message;
pub mod select;
pub mod strutil;
