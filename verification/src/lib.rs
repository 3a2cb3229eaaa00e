//! Peekaboo: a one-shot snapshot of the host machine, rendered as text.
//!
//! The crate holds the data model of a snapshot, the selection of sections,
//! the renderer with its unit conventions, the record of the remembered name
//! and the session that sequences one run. Probing the host, touching the
//! file system and writing to the terminal are left to the caller.

pub mod units;
pub mod snapshot;
pub mod selection;
pub mod style;
pub mod render;
pub mod layout;
pub mod identity;
pub mod session;
pub mod run;
pub mod spinner;
