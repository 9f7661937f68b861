//! Pulls a JSON schema file out of a remote repository and caches it under
//! a per-owner, per-repository directory. The library holds everything the
//! tool decides about the data it handles: listing and filtering the tree,
//! resolving the user's selection, decoding fetched content, and deriving
//! the destination path. The surrounding process — argument parsing, the
//! HTTP transfer, the prompt and the file write — stays outside it and
//! hands the library plain values.

pub mod codec;
pub mod error;
pub mod gh;
pub mod pull;
pub mod store;
pub mod text;
pub mod tree;
