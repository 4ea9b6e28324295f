//! Core of a source-to-package build pipeline.
//!
//! A *bundle* is a declarative per-package document; a *gate* is a
//! release-wide policy document that can override individual bundles.
//! Given a bundle and an optional gate, the pipeline acquires upstream
//! sources, unpacks them into a build tree, drives the build toolchain,
//! and emits either an IPS repository publication or a release tarball.
//!
//! This crate holds the verified logic of that pipeline: the document
//! model with its merge semantics, the planning of source acquisition,
//! unpacking, building and packaging, and the path and manifest
//! derivations.  Filesystem, network and child-process work is carried
//! out by a thin unverified binary that executes the plans produced
//! here.

pub mod acquire;
pub mod builder;
pub mod bundle;
pub mod config;
pub mod doc;
pub mod edit;
pub mod gate;
pub mod ips;
pub mod paths;
pub mod pipeline;
pub mod repology;
pub mod schema;
pub mod strutil;
pub mod tarball;
pub mod unpack;
pub mod workspace;
