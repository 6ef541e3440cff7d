//! Calendar feed normalisation: raw feed properties are extracted into events,
//! their timestamps and zone aliases are normalised, and events that are already
//! over are filtered out.

pub mod config;
pub mod convert;
pub mod datetime;
pub mod extract;
pub mod feed;
pub mod filter;
pub mod laws;
pub mod model;
pub mod text;
pub mod timezone;

pub use config::Config;
pub use convert::outlook_to_google;
pub use datetime::convert_event_datetime;
pub use feed::{parse_ics, parse_ics_today, upcoming_events, Diagnostic, FeedOutcome};
pub use model::{Event, EventDateTime, OutlookEvent, OutlookEventDateTime};
