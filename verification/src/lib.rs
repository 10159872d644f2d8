//! Extraction and reinjection of the script payload embedded in a
//! fixed-layout binary container, together with the size fields of the
//! sibling metadata buffer that describes it.

pub mod le32;
pub mod locate;
pub mod error;
pub mod container;
pub mod metadata;
pub mod command;
pub mod app;
