//! A typing-practice tutor: the session state machine that tracks typed
//! input against a prompt, the metrics derived from it, and the aggregation
//! of completed sessions into summary statistics.
//!
//! Speeds and accuracies are fixed-point integers in hundredths
//! (`9250` is 92.50).

pub mod logic;
pub mod text;
pub mod storage;
pub mod components;
