//! The price providers the bot ships with.

pub mod newline_provider;

pub use newline_provider::{NewLineConfig, NewLineProvider};
