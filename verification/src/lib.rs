//! Verified core of a batch URL liveness checker.
//!
//! Given the raw text cells of a tabular input and, for each cell that is
//! eligible for probing, the outcome of two HEAD probes, the library
//! classifies the outcomes and assembles the augmented output rows:
//! for every configured column, the original text, the HTTP status code
//! (or the `"ERROR"` sentinel), and the resolved redirect target (or the
//! empty string, or the sentinel). The network probes themselves, and the
//! tabular framing, live outside the library.

pub mod outcome;
pub mod prober;
pub mod row;
pub mod text;
