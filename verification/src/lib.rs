//! Resolution of a requested service executable into a validated file path,
//! through a content-addressed build cache.
//!
//! The library decides and the caller acts. A resolution starts with
//! [`ArtifactResolver::resolve`], which answers with the first [`Action`] to
//! carry out; each outcome is handed back to [`Resolution::advance`] as an
//! [`Event`], until the action is `Finish` with the resolved artifact or the
//! failure. What holds of every resolution is stated and proved in [`laws`]
//! and [`concurrency`].

pub mod cache;
pub mod concurrency;
pub mod error;
pub mod git;
pub mod identity;
pub mod laws;
pub mod orchestrator;
pub mod path;
pub mod provenance;
pub mod registry;
pub mod resolver;
pub mod source;
pub mod text;
pub mod validator;
pub mod zcashd;

pub use crate::error::ArtifactError;
pub use crate::git::GitPolicy;
pub use crate::orchestrator::{Action, Event, Phase};
pub use crate::registry::{BuildRecipe, Registry, ReleaseIndex, ServiceId, ToolSpec, VersionProbe};
pub use crate::resolver::{ArtifactResolver, Resolution};
pub use crate::source::{
    ArtifactProvider, ArtifactSource, BuildConfig, IndexerKind, NodeKind, ResolvedArtifact,
    ResolverConfig,
};
