//! A notification relay library: an abstract message model, a platform
//! registry that maps platform names to factories, and a reference
//! webhook integration that translates messages into a JSON wire format
//! and interprets the webhook's response envelope.

pub mod decimal;
pub mod dispatch;
pub mod error;
pub mod json;
pub mod message;
pub mod platform;
pub mod registry;
pub mod result;
pub mod wxwork;

