//! Verified core of a chat server: permission resolution, request
//! validation, identifier and key formatting, and the decision logic of the
//! services, kept apart from the I/O that drives them.

pub mod text;
pub mod ids;
pub mod permissions;
pub mod error;
pub mod rate_limit;
pub mod auth;
pub mod domain;
pub mod slug;
pub mod invites;
pub mod realtime;
pub mod refresh;
pub mod files;
pub mod uploads;
pub mod messages;
pub mod media;
pub mod spaces;
pub mod pagination;
pub mod sql;
pub mod config;
pub mod theme;
