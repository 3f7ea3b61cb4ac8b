//! Loading of the runtime configuration of an event handler: whether it
//! records, where it stores what it records, and which event categories it
//! captures.

pub mod config;
pub mod document;
pub mod events;

pub use config::{parse_events, parse_yesno, strip_bom, Config, ConfigError};
pub use events::{EventMask, ALL_EVENT_BITS};
