//! Upstream acquisition and repository synchronization engine for a
//! source-based package toolchain: verified fetch planning, content-addressed
//! cache layout, digest verification, git tree synchronization, bounded
//! concurrent orchestration, and index ingestion batching.

pub mod digest;
pub mod gitsync;
pub mod index;
pub mod manager;
pub mod orchestrator;
pub mod repository;
pub mod text;
pub mod upstream;
