//! What holds of the library as a whole.

pub mod carried;
pub mod carried_graph;
pub mod carried_plans;
pub mod carried_reviews;
pub mod carried_votes;
pub mod course;
pub mod documents;
pub mod drafts;
pub mod graphs;
pub mod grounds;
pub mod papers;
pub mod passage;
pub mod plans;
pub mod prompts;
pub mod quotes;
pub mod ratios;
pub mod rendered;
pub mod results;
pub mod runs;
pub mod scans;
pub mod scores;
pub mod sources;
pub mod stages;
pub mod texts;
pub mod views;
