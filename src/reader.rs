//! Errors of the sequence-file reader.
use vstd::prelude::*;

verus! {

/// A failure to open or read a FASTA file, with its description.
#[derive(Debug, Clone)]
pub enum FastaReaderError {
    Generic(String),
}

impl FastaReaderError {
    /// The description of the failure.
    pub fn detail(&self) -> (r: &str)
        ensures
            r@ == self->Generic_0@,
    {
        match self {
            FastaReaderError::Generic(s) => s.as_str(),
        }
    }
}

} // verus!
