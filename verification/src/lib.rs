pub mod bot_modules;
pub mod chat;
pub mod domain;
pub mod price_service;
pub mod text;
pub mod time;
