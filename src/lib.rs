//! Comparison of DNA/RNA sequences: pairwise and partial-order alignment,
//! edit and Hamming distances, and a tally of the mutation events that an
//! alignment implies.

pub mod aliner;
pub mod distance;
pub mod external;
pub mod mutation_detection;
pub mod reader;
