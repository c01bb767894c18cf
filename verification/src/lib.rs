//! A safety layer around a process-global, natively initialized
//! address-normalization engine.
//!
//! The engine itself (tokenization, expansion, parsing, language
//! classification) is an external collaborator reached over a C-style
//! boundary. This crate holds the part worth proving: the marshalling of
//! values across that boundary, the reference-counted lifecycle that
//! governs global setup and teardown, and the capability handles whose
//! validity is bound to a live session.

pub mod lifecycle;
pub mod marshal;
pub mod options;
pub mod session;
