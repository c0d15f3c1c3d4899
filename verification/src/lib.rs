//! Capability manifests, security profiles, static import scanning, integrity checks and
//! sandbox decisions for running untrusted WebAssembly plugins.
pub mod text;
pub mod manifest;
pub mod profiles;
pub mod scanner;
pub mod crypto;
pub mod monitor;
pub mod sandbox;
