//! A small HTTP version service, split into its verified decision logic:
//! the build metadata it reports, the per-request timeout guard that turns
//! failures into structured error bodies, and the shutdown coordinator that
//! reacts to termination signals.
pub mod build_info;
pub mod guard;
pub mod shutdown;
pub mod version;
