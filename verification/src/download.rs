//! The verified downloader: decides, for one remote file, whether to
//! transfer at all, which external program fetches it, and how the
//! retry loop reacts to exit statuses and checksum results.
//!
//! The transfer itself is an external process run by the caller; the
//! caller feeds each exit status and each computed digest back into the
//! machine here, which holds every decision.

use vstd::prelude::*;

use crate::text::spec_ci_eq;

verus! {

/// The external program that performs a transfer.
#[derive(Debug, Clone, Copy, PartialEq, Eq, Structural)]
pub enum Retriever {
    Wget,
    Aria2c,
    Curl,
}

impl Retriever {
    /// Parses the command-line spelling of a retriever.
    pub fn parse(s: &str) -> (r: Option<Retriever>)
        ensures
            s@ == "wget"@ ==> r == Some(Retriever::Wget),
            s@ == "aria2c"@ ==> r == Some(Retriever::Aria2c),
            s@ == "curl"@ ==> r == Some(Retriever::Curl),
            s@ != "wget"@ && s@ != "aria2c"@ && s@ != "curl"@ ==> r is None,
    {
        proof {
            reveal_strlit("wget");
            reveal_strlit("aria2c");
            reveal_strlit("curl");
            assert("wget"@.len() != "aria2c"@.len());
            assert("wget"@[0] != "curl"@[0]);
            assert("aria2c"@[0] != "curl"@[0]);
        }
        if crate::text::str_eq(s, "wget") {
            Some(Retriever::Wget)
        } else if crate::text::str_eq(s, "aria2c") {
            Some(Retriever::Aria2c)
        } else if crate::text::str_eq(s, "curl") {
            Some(Retriever::Curl)
        } else {
            None
        }
    }

    /// The name of the program to invoke.
    pub fn program(&self) -> (r: String)
        ensures
            *self == Retriever::Wget ==> r@ == "wget"@,
            *self == Retriever::Aria2c ==> r@ == "aria2c"@,
            *self == Retriever::Curl ==> r@ == "curl"@,
    {
        match self {
            Retriever::Wget => String::from_str("wget"),
            Retriever::Aria2c => String::from_str("aria2c"),
            Retriever::Curl => String::from_str("curl"),
        }
    }

    /// The argument list handed to the program for one transfer of
    /// `url` into the local file `output`.
    pub fn arguments(&self, url: &str, output: &str) -> (args: Vec<String>)
        ensures
            *self == Retriever::Wget ==> args@.len() == 4 && args@[0]@ == "--no-check-certificate"@
                && args@[1]@ == "-O"@ && args@[2]@ == output@ && args@[3]@ == url@,
            *self == Retriever::Aria2c ==> args@.len() == 4 && args@[0]@ == "-x4"@ && args@[1]@
                == "-c"@ && args@[2]@ == "-o "@ + output@ && args@[3]@ == "http://"@ + url@,
            *self == Retriever::Curl ==> args@.len() == 3 && args@[0]@ == "-o"@ && args@[1]@
                == output@ && args@[2]@ == url@,
    {
        match self {
            Retriever::Wget => {
                let mut args: Vec<String> = Vec::new();
                args.push(String::from_str("--no-check-certificate"));
                args.push(String::from_str("-O"));
                args.push(output.to_owned());
                args.push(url.to_owned());
                args
            },
            Retriever::Aria2c => {
                let mut args: Vec<String> = Vec::new();
                args.push(String::from_str("-x4"));
                args.push(String::from_str("-c"));
                args.push(crate::text::str_concat("-o ", output));
                args.push(crate::text::str_concat("http://", url));
                args
            },
            Retriever::Curl => {
                let mut args: Vec<String> = Vec::new();
                args.push(String::from_str("-o"));
                args.push(output.to_owned());
                args.push(url.to_owned());
                args
            },
        }
    }
}

/// Whether a download is skipped outright: an existing destination is
/// trusted and left alone unless the caller forces an overwrite.
pub fn should_skip_download(exists: bool, force: bool) -> (skip: bool)
    ensures
        skip == (exists && !force),
{
    exists && !force
}

/// Where one download stands.
#[derive(Debug, Clone, Copy, PartialEq, Eq, Structural)]
pub enum DlPhase {
    /// A transfer is running or about to run.
    Transferring,
    /// A transfer exited cleanly; its checksum is being computed.
    Verifying,
    /// Transfer complete and, unless forced, checksum-verified.
    Succeeded,
    /// The retry budget is exhausted.
    Failed,
}

/// The state of one download's retry loop.
#[derive(Debug, Clone, Copy, PartialEq, Eq, Structural)]
pub struct DlState {
    pub phase: DlPhase,
    /// Transient failures so far: bad exits and checksum mismatches.
    pub failures: usize,
    /// The retry budget: up to this many failures are retried, so up
    /// to `max_attempts + 1` transfers run in all.
    pub max_attempts: usize,
    /// Overwrite mode: verification is skipped entirely.
    pub force: bool,
}

/// What the caller observed: a transfer's exit code, or the hex digest
/// of the destination file.
pub enum DlEvent {
    Exit(i32),
    Digest(String),
}

/// What the caller must do next.
#[derive(Debug, Clone, Copy, PartialEq, Eq, Structural)]
pub enum DlAction {
    /// Compute the destination file's checksum and report it.
    ComputeChecksum,
    /// Sleep for the configured delay, then run the transfer again.
    SleepThenTransfer,
    /// The download is complete.
    ReportSuccess,
    /// The download has failed for good.
    ReportFailure,
}

/// One more transient failure: retry while budget remains, otherwise
/// the download is failed.
pub open spec fn spec_dl_setback(s: DlState) -> (DlState, DlAction) {
    if s.failures < s.max_attempts {
        (
            DlState { phase: DlPhase::Transferring, failures: (s.failures + 1) as usize, ..s },
            DlAction::SleepThenTransfer,
        )
    } else {
        (DlState { phase: DlPhase::Failed, ..s }, DlAction::ReportFailure)
    }
}

/// The transition relation of the download loop.
///
/// A zero exit ends the download at once in overwrite mode and starts
/// verification otherwise; a matching digest ends it; a non-zero exit
/// or a mismatched digest is a transient failure.
pub open spec fn spec_dl_next(s: DlState, e: DlEvent, expected: Seq<char>) -> (DlState, DlAction) {
    match e {
        DlEvent::Exit(code) => if code == 0 {
            if s.force {
                (DlState { phase: DlPhase::Succeeded, ..s }, DlAction::ReportSuccess)
            } else {
                (DlState { phase: DlPhase::Verifying, ..s }, DlAction::ComputeChecksum)
            }
        } else {
            spec_dl_setback(s)
        },
        DlEvent::Digest(d) => if spec_ci_eq(d@, expected) {
            (DlState { phase: DlPhase::Succeeded, ..s }, DlAction::ReportSuccess)
        } else {
            spec_dl_setback(s)
        },
    }
}

/// A fresh download loop about to run its first transfer.
pub fn dl_init(max_attempts: usize, force: bool) -> (s: DlState)
    ensures
        s.phase == DlPhase::Transferring,
        s.failures == 0,
        s.max_attempts == max_attempts,
        s.force == force,
{
    DlState { phase: DlPhase::Transferring, failures: 0, max_attempts, force }
}

/// Advances the download loop on one observation. `expected_md5` is the
/// checksum the record declares for this file.
pub fn dl_step(s: &mut DlState, e: DlEvent, expected_md5: &str) -> (a: DlAction)
    requires
        (old(s).phase == DlPhase::Transferring && e matches DlEvent::Exit(_)) || (old(s).phase
            == DlPhase::Verifying && e matches DlEvent::Digest(_)),
        old(s).failures <= old(s).max_attempts,
    ensures
        (*final(s), a) == spec_dl_next(*old(s), e, expected_md5@),
{
    match e {
        DlEvent::Exit(code) => {
            if code == 0 {
                if s.force {
                    s.phase = DlPhase::Succeeded;
                    DlAction::ReportSuccess
                } else {
                    s.phase = DlPhase::Verifying;
                    DlAction::ComputeChecksum
                }
            } else {
                dl_setback(s)
            }
        },
        DlEvent::Digest(d) => {
            if crate::checksum::checksum_matches(d.as_str(), expected_md5) {
                s.phase = DlPhase::Succeeded;
                DlAction::ReportSuccess
            } else {
                dl_setback(s)
            }
        },
    }
}

fn dl_setback(s: &mut DlState) -> (a: DlAction)
    requires
        old(s).failures <= old(s).max_attempts,
    ensures
        (*final(s), a) == spec_dl_setback(*old(s)),
{
    if s.failures < s.max_attempts {
        s.failures += 1;
        s.phase = DlPhase::Transferring;
        DlAction::SleepThenTransfer
    } else {
        s.phase = DlPhase::Failed;
        DlAction::ReportFailure
    }
}

/// The checksum gate: a digest that does not match the expected
/// checksum can never end a download successfully. It is retried while
/// budget remains and the download fails for good otherwise, so a
/// mismatched file is never silently accepted.
pub proof fn lemma_checksum_gate(s: DlState, d: String, expected: Seq<char>)
    requires
        !spec_ci_eq(d@, expected),
    ensures
        spec_dl_next(s, DlEvent::Digest(d), expected).0.phase != DlPhase::Succeeded,
        spec_dl_next(s, DlEvent::Digest(d), expected).1 != DlAction::ReportSuccess,
        s.failures < s.max_attempts ==> spec_dl_next(s, DlEvent::Digest(d), expected).1
            == DlAction::SleepThenTransfer,
        s.failures >= s.max_attempts ==> spec_dl_next(s, DlEvent::Digest(d), expected).0.phase
            == DlPhase::Failed && spec_dl_next(s, DlEvent::Digest(d), expected).1
            == DlAction::ReportFailure,
{
}

/// The retry budget is never exceeded: stepping keeps the failure count
/// within `max_attempts`, and the budget itself never changes.
pub proof fn lemma_dl_budget(s: DlState, e: DlEvent, expected: Seq<char>)
    requires
        s.failures <= s.max_attempts,
    ensures
        spec_dl_next(s, e, expected).0.failures <= spec_dl_next(s, e, expected).0.max_attempts,
        spec_dl_next(s, e, expected).0.max_attempts == s.max_attempts,
        spec_dl_next(s, e, expected).0.force == s.force,
{
}

/// The index of the first entry whose name equals `target` and which is
/// a plain file: how a missing destination is sought among the entries
/// of a working directory walked by the caller.
pub fn find_file_entry(names: &Vec<String>, is_file: &Vec<bool>, target: &str) -> (r: Option<
    usize,
>)
    requires
        names@.len() == is_file@.len(),
    ensures
        match r {
            Some(i) => i < names@.len() && names@[i as int]@ == target@ && is_file@[i as int] && (
            forall|j: int| 0 <= j < i ==> !(names@[j]@ == target@ && is_file@[j])),
            None => forall|j: int|
                0 <= j < names@.len() ==> !(names@[j]@ == target@ && is_file@[j]),
        },
{
    let mut i: usize = 0;
    while i < names.len()
        invariant
            names@.len() == is_file@.len(),
            i <= names@.len(),
            forall|j: int| 0 <= j < i ==> !(names@[j]@ == target@ && is_file@[j]),
        decreases names@.len() - i,
    {
        if is_file[i] && crate::text::str_eq(names[i].as_str(), target) {
            return Some(i);
        }
        i += 1;
    }
    None
}

} // verus!
