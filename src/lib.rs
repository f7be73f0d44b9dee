//! Resolves a Cardano book collection to its assets, classifies each asset's
//! metadata, and plans the download of its cover image.
//!
//! The modules hold the logic; a driver performs the network and file
//! operations that the state machines of [`pipeline`], [`download`] and [`run`]
//! call for.

pub mod bookio;
pub mod chain;
pub mod download;
pub mod metadata;
pub mod pipeline;
pub mod run;
pub mod util;
