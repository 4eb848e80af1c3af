//! The core of a literature review engine: how drafts are planned, judged, refined and merged, and
//! how every source, quote and label of the outcome is checked.
//!
//! Nothing here calls a model or touches a disk, and the only clock is the one behind
//! [`artifact::Timestamp`]. What takes several calls is a machine that says what it waits for and
//! takes the answer ([`chain`], [`tournament`], [`trajectory`]); everything else is a function from
//! values to values. Contracts speak of views: texts are sequences of characters, records are
//! records of texts. What holds of several functions together stands under [`laws`].

pub mod adapter;
pub mod artifact;
pub mod chain;
pub mod fitness;
pub mod guards;
pub mod inherit;
pub mod laws;
pub mod lints;
pub mod markdown;
pub mod mod_types;
pub mod plan;
pub mod plan_prompts;
pub mod post_process;
pub mod prompts;
pub mod quotes;
pub mod ranking;
pub mod ratio;
pub mod run;
pub mod term_sheet;
pub mod text;
pub mod tournament;
pub mod trajectory;
pub mod verification;
pub mod xml;
