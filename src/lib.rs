//! A verified model of the VapourSynth object protocol: video formats, typed property maps,
//! frames and their planes, the reference-count ledger for foreign handles, the two-phase frame
//! request protocol and the decisions of the plugin and script bridges.
//!
//! Everything here works on plain values. The foreign engine is reached by the application layer,
//! which converts between the engine's objects and the types of this crate.

pub mod api;
pub mod format;
pub mod frame;
pub mod handles;
pub mod map;
pub mod node;
pub mod plugins;
pub mod vsscript;
