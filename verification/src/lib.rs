//! A local version manager for Neovim release archives: it resolves the
//! on-disk cache layout, plans downloads of versioned archives, decompresses
//! them, plans the symlink publication of the active version, and parses the
//! installed binary's self-reported version.
//!
//! All filesystem, network and process side effects are carried out by a thin
//! unverified shell; this crate holds the decisions and path arithmetic, each
//! with a contract.
pub mod archive;
pub mod errors;
pub mod ops;
pub mod paths;
pub mod probe;
pub mod publish;
pub mod text;
