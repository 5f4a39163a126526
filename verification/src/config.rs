//! The resolved configuration one invocation runs under, and the
//! consistency checks on it.

use vstd::prelude::*;

use crate::accession::AccessionType;
use crate::download::Retriever;
use crate::layout::Layout;
use crate::run::Provider;

verus! {

/// Everything one invocation was asked to do, already parsed.
#[derive(Debug, Clone)]
pub struct Args {
    /// The accession, or list of accessions, to process.
    pub accession: AccessionType,
    /// The directory read files are written to.
    pub outdir: Option<String>,
    /// The retry budget for metadata lookups and transfers.
    pub attempts: usize,
    /// Threads handed to the extraction and compression tools.
    pub threads: usize,
    /// Seconds to sleep between attempts.
    pub sleep: usize,
    /// Overwrite existing files and skip checksum verification.
    pub force: bool,
    /// Group outputs by experiment.
    pub group_by_experiment: bool,
    /// Group outputs by sample.
    pub group_by_sample: bool,
    /// Prefix for grouped output files.
    pub prefix: String,
    /// Hand the batch to the workflow-engine layer.
    pub nextflow: bool,
    /// The workflow executor.
    pub executor: String,
    /// The cluster queue.
    pub queue: String,
    /// Report metadata only; download nothing.
    pub metadata: bool,
    /// Report downloadability only; download nothing.
    pub check_if_downloadable: bool,
    /// The external download program.
    pub retriever: Retriever,
    /// The workflow engine's queue size.
    pub queue_size: usize,
    /// The expected output layout.
    pub layout: Layout,
    /// The provider retrieval starts with.
    pub provider: Provider,
}

impl Args {
    /// The one consistency rule on parsed flags: outputs cannot be
    /// grouped by experiment and by sample at once. Creating the
    /// output directory is the caller's, before processing starts.
    pub fn check(&self) -> (ok: bool)
        ensures
            ok == !(self.group_by_experiment && self.group_by_sample),
    {
        !(self.group_by_experiment && self.group_by_sample)
    }
}

/// Whether the configured retriever can be used: it must resolve on
/// the execution path, which the caller reports.
pub fn check_dependencies(retriever_on_path: bool) -> (ok: bool)
    ensures
        ok == retriever_on_path,
{
    retriever_on_path
}

/// Whether the workflow engine can be used: it must resolve on the
/// execution path, which the caller reports.
pub fn check_nf(nextflow_on_path: bool) -> (ok: bool)
    ensures
        ok == nextflow_on_path,
{
    nextflow_on_path
}

} // verus!
