//! Picking a random wallpaper image from a directory.
//!
//! The library holds the decisions of that pipeline: which invocations are
//! well-formed, which paths may be scanned, which directory entries count as
//! images, how one of them is chosen, and what command applies it. Reading
//! the filesystem, the argument vector and spawning the external tool stay
//! with the caller, which hands plain values in and takes plain values back.

pub mod args;
pub mod entries;
pub mod errors;
pub mod extension;
pub mod select;
pub mod validate;
pub mod wallpaper;
