//! Input errors: conditions that retrying cannot fix, caused by an
//! unclassifiable accession or by malformed fields in a run record.

use vstd::prelude::*;

verus! {

/// The required fields of a run record.
#[derive(Debug, Clone, Copy, PartialEq, Eq, Structural)]
pub enum FieldId {
    RunAccession,
    LibraryLayout,
    FastqFtp,
    FastqMd5,
}

/// A fatal, non-retried error in the caller's input or in the
/// metadata record describing a run.
#[derive(Debug, Clone, Copy, PartialEq, Eq, Structural)]
pub enum InputError {
    /// The accession matches none of the recognised patterns.
    InvalidAccession,
    /// A required record field is absent.
    MissingField(FieldId),
    /// The remote-file list and the checksum list have different lengths.
    MismatchedPairCounts { ftp: usize, md5: usize },
    /// The number of remote files contradicts the expected layout.
    LayoutCountMismatch { expected: usize, found: usize },
    /// The record's library layout is neither paired nor single.
    InvalidLayoutField,
    /// No file name can be derived from the remote URL at this position.
    NoFileName { index: usize },
    /// The remote file name at this position does not fit the
    /// accession's expected naming.
    UnexpectedFileName { index: usize },
    /// The checksum at this position is empty.
    EmptyChecksum { index: usize },
}

impl InputError {
    /// A short machine-readable label for reporting.
    pub fn label(&self) -> (r: String)
        ensures
            *self == InputError::InvalidAccession ==> r@ == "invalid accession"@,
            (self matches InputError::MissingField(_)) ==> r@ == "missing record field"@,
            (self matches InputError::MismatchedPairCounts { .. }) ==> r@
                == "mismatched file and checksum counts"@,
            (self matches InputError::LayoutCountMismatch { .. }) ==> r@
                == "unexpected number of files for layout"@,
            (self matches InputError::InvalidLayoutField) ==> r@ == "unrecognised library layout"@,
            (self matches InputError::NoFileName { .. }) ==> r@ == "no file name in remote URL"@,
            (self matches InputError::UnexpectedFileName { .. }) ==> r@
                == "unexpected remote file name"@,
            (self matches InputError::EmptyChecksum { .. }) ==> r@ == "empty checksum"@,
    {
        match self {
            InputError::InvalidAccession => String::from_str("invalid accession"),
            InputError::MissingField(_) => String::from_str("missing record field"),
            InputError::MismatchedPairCounts { .. } => String::from_str(
                "mismatched file and checksum counts",
            ),
            InputError::LayoutCountMismatch { .. } => String::from_str(
                "unexpected number of files for layout",
            ),
            InputError::InvalidLayoutField => String::from_str("unrecognised library layout"),
            InputError::NoFileName { .. } => String::from_str("no file name in remote URL"),
            InputError::UnexpectedFileName { .. } => String::from_str("unexpected remote file name"),
            InputError::EmptyChecksum { .. } => String::from_str("empty checksum"),
        }
    }
}

} // verus!
