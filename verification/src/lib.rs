//! A verified evaluation pipeline for scoring a generative oracle.
//!
//! Each test-case document yields a problem description and a baseline
//! resolution; the oracle produces a candidate answer, a structured payload
//! is extracted from it, validated, and compared semantically against the
//! baseline by a second oracle call. Every case ends in exactly one record
//! of a closed failure taxonomy. The oracle transport itself is unverified
//! and lives outside this crate; the pipeline here is a step machine whose
//! driver performs those calls.

pub mod extract;
pub mod pipeline;
pub mod report;
pub mod schema;
pub mod scripted;
pub mod text;
pub mod validate;
pub mod verdict;
