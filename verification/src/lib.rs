//! Verified decision logic of the Duality Substrate node: runtime constants,
//! chain-spec selection, command dispatch and service wiring decisions.

pub mod chain_spec;
pub mod cli_info;
pub mod command;
pub mod executive;
pub mod per_thing;
pub mod primitives;
pub mod runtime;
pub mod service;
pub mod sparrow;
pub mod template;
pub mod text;
pub mod variant;
