//! Secure destruction of files: the decisions of the overwrite, truncate,
//! rename and unlink protocol, and of the post-order walk that applies it to
//! whole directory trees. The host performs the file operations that the
//! engines ask for and reports back what happened.

pub mod error;
pub mod config;
pub mod chunks;
pub mod random;
pub mod path;
pub mod name;
pub mod protocol;
pub mod shred;
pub mod walk;
pub mod model;
pub mod tree;
