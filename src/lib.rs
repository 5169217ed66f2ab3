//! Classifies the API-compatibility impact of a change and keeps exactly one
//! compatibility label on its review request.
//!
//! The library holds the decisions of the pipeline: which revisions to
//! compare and how, how the analyzer's verdict is read, and which label calls
//! bring the request's labels to the one that the verdict selects. Running
//! processes, copying trees and talking to the hosting service are left to
//! the caller, who reports each outcome back.
//!
//! `pipeline::Pipeline` drives one run from start to end; the other modules
//! hold its parts: the order of severity (`severity`), the git and analyzer
//! arguments (`git`), the preparation of the two trees (`prepare`), the
//! reading of the report (`report`), the label calls and what they do to a
//! request's labels (`labels`), and the reading of the ref and repository
//! that locate the request (`request`).
pub mod text;
pub mod severity;
pub mod steps;
pub mod git;
pub mod prepare;
pub mod labels;
pub mod report;
pub mod request;
pub mod pipeline;
