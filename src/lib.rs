//! Bridge from alert webhooks to a push-notification service: configuration
//! resolution and the translation of one alert into one outbound message.

pub mod config;
pub mod webhook;
