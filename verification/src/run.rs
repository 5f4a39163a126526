//! Per-accession orchestration decisions: which mode a run is processed
//! in, what a probe reports, which provider is used, and when a
//! toolchain failure falls back to the direct-download provider.

use vstd::prelude::*;
use vstd::string::StrSliceExecFns;

use crate::errors::InputError;
use crate::record::RunRecord;
use crate::sra::{SRAError, SraFailure};

verus! {

/// The two upstream providers.
#[derive(Debug, Clone, Copy, PartialEq, Eq, Structural)]
pub enum Provider {
    ENA,
    SRA,
}

impl Provider {
    /// Parses the command-line spelling of a provider.
    pub fn parse(s: &str) -> (r: Option<Provider>)
        ensures
            s@ == "ena"@ ==> r == Some(Provider::ENA),
            s@ == "sra"@ ==> r == Some(Provider::SRA),
            s@ != "ena"@ && s@ != "sra"@ ==> r is None,
    {
        proof {
            reveal_strlit("ena");
            reveal_strlit("sra");
            assert("ena"@[0] != "sra"@[0]);
        }
        if crate::text::str_eq(s, "ena") {
            Some(Provider::ENA)
        } else if crate::text::str_eq(s, "sra") {
            Some(Provider::SRA)
        } else {
            None
        }
    }

    /// The command-line spelling of a provider.
    pub fn name(&self) -> (r: String)
        ensures
            *self == Provider::ENA ==> r@ == "ena"@,
            *self == Provider::SRA ==> r@ == "sra"@,
    {
        match self {
            Provider::ENA => String::from_str("ena"),
            Provider::SRA => String::from_str("sra"),
        }
    }
}

/// What is done with one accession.
#[derive(Debug, Clone, Copy, PartialEq, Eq, Structural)]
pub enum RunMode {
    /// Report the metadata, download nothing.
    MetadataOnly,
    /// Report whether remote files exist, download nothing.
    Probe,
    /// Retrieve the read files.
    Download,
}

/// The processing mode for the flags given; a probe request wins over
/// a metadata-only request.
pub fn run_mode(metadata: bool, check_if_downloadable: bool) -> (r: RunMode)
    ensures
        check_if_downloadable ==> r == RunMode::Probe,
        !check_if_downloadable && metadata ==> r == RunMode::MetadataOnly,
        !check_if_downloadable && !metadata ==> r == RunMode::Download,
{
    if check_if_downloadable {
        RunMode::Probe
    } else if metadata {
        RunMode::MetadataOnly
    } else {
        RunMode::Download
    }
}

/// What a probe reports for one accession.
#[derive(Debug, Clone, Copy, PartialEq, Eq, Structural)]
pub enum ProbeStatus {
    Downloadable,
    NotFound,
}

/// A run is downloadable exactly when a record exists and carries a
/// non-empty remote-file field.
pub fn probe_status(record: Option<&RunRecord>) -> (r: ProbeStatus)
    ensures
        match record {
            None => r == ProbeStatus::NotFound,
            Some(rec) => (r == ProbeStatus::Downloadable) == (rec.spec_get("fastq_ftp"@) matches
                Some(v) && v.len() > 0),
        },
{
    match record {
        None => ProbeStatus::NotFound,
        Some(rec) => match rec.get("fastq_ftp") {
            Some(v) => {
                if v.as_str().unicode_len() > 0 {
                    ProbeStatus::Downloadable
                } else {
                    ProbeStatus::NotFound
                }
            },
            None => ProbeStatus::NotFound,
        },
    }
}

/// The fallback edge: of all toolchain failures, exactly a missing tool
/// sends the run to the direct-download provider; every other failure
/// is fatal for the accession.
pub fn sra_fallback_to_ena(e: &SRAError) -> (r: bool)
    ensures
        r == (e matches SRAError::MissingTool(_)),
{
    match e {
        SRAError::MissingTool(_) => true,
        _ => false,
    }
}

/// Why one accession failed, by stage.
#[derive(Debug, Clone, Copy, PartialEq, Eq, Structural)]
pub enum RunFailure {
    /// The accession or its record is malformed.
    Input(InputError),
    /// Metadata lookup exhausted its attempts.
    MetadataExhausted { attempts: usize },
    /// The transfer at this position in the record failed for good.
    TransferFailed { index: usize },
    /// The toolchain pipeline failed (after any fallback decision).
    Sra(SraFailure),
}

/// What processing one accession produced: verified local files, or a
/// classified failure.
#[derive(Debug, Clone)]
pub enum RetrievalOutcome {
    Files(Vec<String>),
    Failed(RunFailure),
}

} // verus!
