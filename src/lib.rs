//! Local WordPress development instances: four cooperating containers on a
//! private network, created, listed and driven through a container engine.
//! The engine itself is reached by the caller; this library decides what to
//! ask of it and what its answers mean.

pub mod status;
pub mod text;
pub mod image;
pub mod kv;
pub mod env;
pub mod container;
pub mod layout;
pub mod artifacts;
pub mod labels;
pub mod metadata;
pub mod plan;
pub mod instance;
pub mod network;
pub mod hosts;
pub mod images;
