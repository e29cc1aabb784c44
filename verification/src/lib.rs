//! Decides, step by step, whether a project's latest commit is fresh enough to
//! warrant a new pipeline run, and which request to send next.

pub mod clock;
pub mod commit;
pub mod exchange;
pub mod gitlab;
pub mod headers;
pub mod json;
pub mod laws;
pub mod replay;
pub mod text;
pub mod workflow;
