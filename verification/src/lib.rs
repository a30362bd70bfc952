//! Release-workflow logic: version bumps, changelog entries, note slugs,
//! pipeline gating and health-check classification.

pub mod text;
pub mod config;
pub mod pipeline;
pub mod note;
pub mod path;
pub mod clock;
pub mod learn;
pub mod detect;
pub mod canary;
pub mod error;
pub mod deploy;
pub mod mcp;
