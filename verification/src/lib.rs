//! Universal ontology and lifecycle types for Nexus components.
//!
//! Component repositories own their domain configuration and effects. This
//! crate owns the standard state and transitions shared by every Nexus.
pub mod authority;
pub mod configuration;
pub mod relocation;
pub mod situation;
pub mod parser;
pub mod renderer;
pub mod text;

pub use authority::{Permissive, SocketAuthority};
pub use configuration::{Configurable, ConfigurationState, ConfigurationTransitionError};
pub use relocation::{Relocated, Relocating, Relocation};
pub use situation::{Situated, Situating, Situation, SystemReading};
pub use renderer::{Error, RenderedReply, Renderer};
pub use parser::{AssertKind, DecodeFailure, Parser};
