pub mod artifact;
pub mod cli;
pub mod device;
pub mod error;
pub mod manifest;
pub mod metadata;
pub mod project;
pub mod sdk;
pub mod signer;
pub mod target;
pub mod text;
pub mod workflow;
