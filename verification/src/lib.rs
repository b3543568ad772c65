//! Management of the directory layout of a build output cache.
//!
//! The cache lives under an externally configured root directory.  Inside it,
//! each layout format version gets its own subtree, so that a breaking change
//! to the layout can be shipped by bumping one version constant without
//! touching (or migrating) the old tree:
//!
//! ```text
//! root/                     # the configured cache root
//!     <version>/            # one subtree per layout format version
//!         .cargo-lock       # lock file serialising all work in this subtree
//!         .fingerprint/     # fingerprint records, one directory per package
//!         deps/             # compiled artifacts
//!         build/            # build-script executables and their output
//! ```
//!
//! This crate computes and guards that layout: it resolves the paths, decides
//! the one-time creation step for the version directory, lists the
//! subdirectories that must exist before artifacts are written, and owns the
//! handle of the exclusive lock for as long as a layout value is alive.  The
//! actual filesystem and lock system calls are the caller's: the library hands
//! it plain path strings and takes back plain results, so every decision made
//! here is verified.

pub mod errors;
pub mod layout;
pub mod paths;
