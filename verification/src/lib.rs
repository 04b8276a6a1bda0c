//! Text diagrams of hierarchical data.
//!
//! Two pieces make up the library. [`ArenaTree`] is a generic arena-indexed
//! tree container: it owns its nodes in one growable slot array, hands out
//! stable integer handles instead of references, reuses freed handles from a
//! free list, and establishes parent/child consistency at insertion time.
//! [`output::borders`] is a border-glyph engine: it resolves a
//! four-directional "which line segments meet here" descriptor to the single
//! matching Unicode box-drawing character, and performs the exact inverse
//! mapping over the recognized characters.
//!
//! The two compose: a walk over a populated tree derives, per node, the
//! connection descriptor of its connector column (a tee while siblings
//! follow, a corner at the last child), and the glyph engine turns that
//! descriptor into the character a renderer prints. [`tree::file`] carries a
//! concrete file tree in the same arena style, populated by streaming
//! insertion from whatever walks a file system; no I/O happens here.

pub mod output;
pub mod tree;

pub use tree::tree::{ArenaTree, BasicNode, Error, ErrorKind, TreeId, TreeItem};
