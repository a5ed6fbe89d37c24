//! Price lookup: the provider interface, the service that asks providers in
//! turn, and the providers themselves.

pub mod provider;
pub mod providers;
pub mod service;

pub use service::PriceService;
