//! TrueType glyph outline scaling engine.
//!
//! Given structured views of a font's glyph tables, the library sizes a
//! glyph's outline (a read-only recursive walk over the composite tree
//! that computes exact buffer requirements), then fills a caller-owned
//! arena with scaled, variation-adjusted, optionally hinted point data
//! in 26.6 fixed point.
//!
//! The entry points live on `outlines::Outlines`: `new`, `glyph_count`,
//! `compute_scale`, `outline` (pass 1), and `draw` / `draw_hinted`
//! (pass 2, over an `memory::OutlineMemory` arena sized from the pass-1
//! result). `laws` holds the engine-wide theorems.

pub mod account_meta;
pub mod error;
pub mod fixed;
pub mod hint;
pub mod laws;
pub mod memory;
pub mod model;
pub mod outlines;
pub mod scaler;
pub mod variation;
