//! The prompts, stage by stage.

pub mod graph;
pub mod lit_review;
pub mod narrative;
pub mod render;
pub mod synthesis;
