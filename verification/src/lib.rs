//! Ternary hidden Markov models: the discrete, verified core.
//!
//! States and emissions are trits {-1, 0, +1}. This crate holds the parts of the
//! model that do not read probabilities: the trit/index encoding (`trit`), the
//! rules that refuse parameters (`params`) and queries (`query`), and the
//! decoding choices of filtering, smoothing and Viterbi decoding (`decode`).

pub mod decode;
pub mod params;
pub mod query;
pub mod trit;

pub use trit::{index_to_trit, trit_to_index, validate_ternary, Ternary, STATES};
