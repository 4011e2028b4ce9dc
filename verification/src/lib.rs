//! A verified core for a small YouTube gateway: channel identity resolution,
//! channel/list record construction, enrichment merging, and the shared
//! classification of upstream failures.
//!
//! Network transport and JSON marshaling live outside this crate; every
//! decision the gateway makes — which upstream call comes next, how a
//! response is classified, how a record is built or enriched — is made by
//! the verified functions here.

pub mod api_error;
pub mod api_types;
pub mod browse;
pub mod channels;
pub mod classify;
pub mod countries;
pub mod errors;
pub mod keywords;
pub mod models;
pub mod numparse;
pub mod resolve_url;
pub mod resolver;
pub mod playlist_items;
pub mod rfc3339;
pub mod subscriptions;
pub mod videos;
pub mod strutil;
