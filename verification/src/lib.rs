//! Parameter resolution for a nix expression scaffolding tool.
//!
//! Given a template selection, an optional fetcher override, an optional
//! package name, an ecosystem-integration flag and an optional output path,
//! the resolver produces a fully determined, internally consistent
//! [`resolver::GenerationRequest`], applying conditional defaults in a fixed
//! precedence order. Resolution is a pure function of its inputs; rendering
//! and file I/O are left to the caller.

pub mod casing;
pub mod fetcher;
pub mod laws;
pub mod paths;
pub mod resolver;
pub mod template;
