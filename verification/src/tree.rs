//! Tree containers: the generic arena-indexed tree and a concrete file tree
//! built in the same style.

pub mod file;
pub mod filetypes;
pub mod icons;
pub mod tree;
