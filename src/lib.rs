//! Background delivery engine of a desktop client for a pub/sub notification
//! service: configuration rules, message framing and filtering, duplicate
//! suppression, notification policy, platform dispatch arguments and the icon
//! cache rules.
pub mod config;
pub mod credentials;
pub mod dedup;
pub mod icon_cache;
pub mod icon_image;
pub mod notifications;
pub mod ntfy;
pub mod poll;
pub mod text;
pub mod timefmt;
