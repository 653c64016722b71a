//! A client-side normalization layer for a versioned JSON-RPC node API: positional
//! argument encoding with trailing-default elision, a per-release table of operation
//! signatures, and projection of release-specific replies onto one canonical model.

pub mod auth;
pub mod encoder;
pub mod error;
pub mod normalize;
pub mod profile;
pub mod wire;

pub use crate::auth::Auth;
pub use crate::normalize::{ActiveCommand, GetRpcInfo};
