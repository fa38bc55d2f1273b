//! A verified dependency-injection container.
//!
//! The crate binds stable type identities to construction rules (providers),
//! and resolves instances on demand while enforcing lifetime semantics:
//! transient providers construct a fresh instance on every resolution, shared
//! providers construct at most once and reuse the cached instance. Resolution
//! tracks the chain of in-progress identities to detect circular
//! dependencies, and every failure is reported through a typed error.
//!
//! Two containers are offered: the module-composed [`injector::Injector`],
//! whose providers may depend on one another, and the builder-style
//! [`sadi::SaDi`], a simpler container with independent transient and
//! singleton registrations.

pub mod error;
pub mod identity;
pub mod injector;
pub mod laws;
pub mod modules;
pub mod provider;
pub mod registry;
pub mod resolution;
pub mod sadi;
pub mod sadi_error;
