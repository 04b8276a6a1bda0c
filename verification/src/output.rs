//! Output-side building blocks: the border-glyph engine.

pub mod borders;
