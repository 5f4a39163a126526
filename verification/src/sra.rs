//! The alternative provider: reads are obtained by a three-stage
//! external toolchain — fetch the container, extract raw read files,
//! compress each in place — with retry on transient failures.
//!
//! Every decision of that pipeline lives in the state machine here; the
//! caller runs the tools and feeds exit statuses and filesystem
//! observations back in. A missing tool is reported before any work
//! begins, so the caller can fall back to the direct-download provider
//! with no partial side effects.

use vstd::prelude::*;

verus! {

/// Errors of the toolchain pipeline.
#[derive(Debug, Clone, PartialEq, Eq)]
pub enum SRAError {
    /// A required tool is not on the execution path; reported before
    /// any work, and a signal to fall back, not a pipeline failure.
    MissingTool(&'static str),
    /// A tool exited non-zero (or without a status, coded -1) and the
    /// retry budget is spent.
    CommandFailed { tool: &'static str, code: i32 },
    /// The fetch tool's distinguished not-found exit: fatal, never
    /// retried.
    NotFound(&'static str),
    /// A filesystem operation around the pipeline failed.
    Io(String),
    /// Extraction produced no read files to compress.
    NoFastqProduced(String),
    /// The outputs still do not satisfy the expected layout.
    LayoutMismatch(String),
}

/// The three external tools, in the order they are checked and run.
#[derive(Debug, Clone, Copy, PartialEq, Eq, Structural)]
pub enum ToolId {
    Prefetch,
    FasterqDump,
    Pigz,
}

pub open spec fn spec_tool_name(t: ToolId) -> Seq<char> {
    match t {
        ToolId::Prefetch => "prefetch"@,
        ToolId::FasterqDump => "fasterq-dump"@,
        ToolId::Pigz => "pigz"@,
    }
}

/// The executable name of a tool.
pub fn tool_name(t: ToolId) -> (r: &'static str)
    ensures
        r@ == spec_tool_name(t),
{
    match t {
        ToolId::Prefetch => "prefetch",
        ToolId::FasterqDump => "fasterq-dump",
        ToolId::Pigz => "pigz",
    }
}

/// A pipeline failure, free of strings so states and actions compare
/// structurally; `sra_error_of` renders it for reporting.
#[derive(Debug, Clone, Copy, PartialEq, Eq, Structural)]
pub enum SraFailure {
    MissingTool(ToolId),
    NotFound(ToolId),
    CommandFailed { tool: ToolId, code: i32 },
    NoFastqProduced,
    LayoutMismatch,
}

/// Renders a pipeline failure as the reported error for `accession`.
pub fn sra_error_of(f: SraFailure, accession: &str) -> (e: SRAError)
    ensures
        f matches SraFailure::MissingTool(t) ==> (e matches SRAError::MissingTool(n) && n@
            == spec_tool_name(t)),
        f matches SraFailure::NotFound(t) ==> (e matches SRAError::NotFound(n) && n@
            == spec_tool_name(t)),
        f matches SraFailure::CommandFailed { tool, code } ==> (e matches SRAError::CommandFailed {
            tool: n,
            code: c,
        } && n@ == spec_tool_name(tool) && c == code),
        f matches SraFailure::NoFastqProduced ==> (e matches SRAError::NoFastqProduced(a) && a@
            == accession@),
        f matches SraFailure::LayoutMismatch ==> (e matches SRAError::LayoutMismatch(a) && a@
            == accession@),
{
    match f {
        SraFailure::MissingTool(t) => SRAError::MissingTool(tool_name(t)),
        SraFailure::NotFound(t) => SRAError::NotFound(tool_name(t)),
        SraFailure::CommandFailed { tool, code } => SRAError::CommandFailed {
            tool: tool_name(tool),
            code,
        },
        SraFailure::NoFastqProduced => SRAError::NoFastqProduced(accession.to_owned()),
        SraFailure::LayoutMismatch => SRAError::LayoutMismatch(accession.to_owned()),
    }
}

/// Checks tool availability, in the fixed order fetch, extract,
/// compress; the first missing tool is reported.
pub fn ensure_tools(has_prefetch: bool, has_fasterq_dump: bool, has_pigz: bool) -> (r: Result<
    (),
    SRAError,
>)
    ensures
        !has_prefetch ==> (r matches Err(e) && e matches SRAError::MissingTool(t) && t@
            == "prefetch"@),
        has_prefetch && !has_fasterq_dump ==> (r matches Err(e) && e matches SRAError::MissingTool(
            t,
        ) && t@ == "fasterq-dump"@),
        has_prefetch && has_fasterq_dump && !has_pigz ==> (r matches Err(e) && e matches
            SRAError::MissingTool(t) && t@ == "pigz"@),
        has_prefetch && has_fasterq_dump && has_pigz ==> r is Ok,
{
    if !has_prefetch {
        Err(SRAError::MissingTool(tool_name(ToolId::Prefetch)))
    } else if !has_fasterq_dump {
        Err(SRAError::MissingTool(tool_name(ToolId::FasterqDump)))
    } else if !has_pigz {
        Err(SRAError::MissingTool(tool_name(ToolId::Pigz)))
    } else {
        Ok(())
    }
}

/// Where the pipeline stands.
#[derive(Debug, Clone, Copy, PartialEq, Eq, Structural)]
pub enum SraPhase {
    /// Waiting for the tool-availability report.
    CheckingTools,
    /// Waiting to hear whether the expected outputs already exist.
    CheckingExisting,
    /// Overwrite mode: waiting for existing outputs to be removed.
    Removing,
    /// The fetch tool is running or about to run.
    Fetching,
    /// The extraction tool is running or about to run.
    Extracting,
    /// Waiting for the list of raw files extraction produced.
    Listing,
    /// The compressor is running on the current raw candidate.
    Compressing,
    /// Waiting for the intermediate container to be removed.
    Cleaning,
    /// Waiting for the final layout check.
    Validating,
    /// Finished: existing outputs were kept untouched.
    DoneSkipped,
    /// Finished: fresh outputs were produced and validated.
    DoneFresh,
    /// Failed for good.
    Failed,
}

/// The pipeline's state.
#[derive(Debug, Clone, Copy, PartialEq, Eq, Structural)]
pub struct SraMachine {
    pub phase: SraPhase,
    /// Overwrite mode: existing outputs are removed and remade.
    pub force: bool,
    /// The try budget of the fetch and extract stages.
    pub max_tries: usize,
    /// Completed tries of the current retrying stage.
    pub tries_done: usize,
    /// Which raw candidates extraction produced (single, mate 1, mate 2).
    pub raw_single: bool,
    pub raw_r1: bool,
    pub raw_r2: bool,
    /// The raw candidate currently being compressed (0, 1 or 2).
    pub compress_idx: usize,
    /// Which compressed outputs this run has produced.
    pub made_single: bool,
    pub made_r1: bool,
    pub made_r2: bool,
}

/// What the caller observed and reports to the machine.
#[derive(Debug, Clone, Copy, PartialEq, Eq, Structural)]
pub enum SraEvent {
    /// Which tools resolve on the execution path.
    Tools { prefetch: bool, fasterq_dump: bool, pigz: bool },
    /// Whether the expected outputs already satisfy the layout.
    ExistingLayout(bool),
    /// Existing outputs have been removed (overwrite mode).
    OutputsRemoved,
    /// The current tool finished; `exited` is false when it was killed
    /// without an exit status, and `code` is meaningful only otherwise.
    Exit { exited: bool, code: i32 },
    /// Which raw candidates exist after extraction.
    RawFiles { single: bool, r1: bool, r2: bool },
    /// The intermediate container file has been removed.
    ContainerRemoved,
    /// Whether the outputs satisfy the layout after the fresh run.
    FinalLayout(bool),
}

/// What the caller must do next.
#[derive(Debug, Clone, Copy, PartialEq, Eq, Structural)]
pub enum SraAction {
    /// Report whether the expected outputs already exist.
    CheckExistingLayout,
    /// Remove the canonical outputs, then report `OutputsRemoved`.
    RemoveOutputs,
    /// Run the fetch tool and report its exit.
    RunPrefetch,
    /// Run the extraction tool and report its exit.
    RunExtract,
    /// Sleep the configured delay, then run the fetch tool again.
    SleepThenPrefetch,
    /// Sleep the configured delay, then run the extraction tool again.
    SleepThenExtract,
    /// Report which raw candidates exist.
    ListRawFiles,
    /// Compress the raw candidate with this index and report its exit.
    RunCompress(usize),
    /// Remove the intermediate container, then report `ContainerRemoved`.
    RemoveContainer,
    /// Report whether the outputs now satisfy the layout.
    CheckFinalLayout,
    /// Done: hand back the outputs that already existed.
    FinishSkipped,
    /// Done: hand back the outputs this run produced.
    FinishFresh,
    /// Failed: report this failure for the accession.
    Fail(SraFailure),
}

/// Which events a phase can receive.
pub open spec fn sra_event_fits(phase: SraPhase, e: SraEvent) -> bool {
    match phase {
        SraPhase::CheckingTools => e matches SraEvent::Tools { .. },
        SraPhase::CheckingExisting => e matches SraEvent::ExistingLayout(_),
        SraPhase::Removing => e matches SraEvent::OutputsRemoved,
        SraPhase::Fetching => e matches SraEvent::Exit { .. },
        SraPhase::Extracting => e matches SraEvent::Exit { .. },
        SraPhase::Listing => e matches SraEvent::RawFiles { .. },
        SraPhase::Compressing => e matches SraEvent::Exit { .. },
        SraPhase::Cleaning => e matches SraEvent::ContainerRemoved,
        SraPhase::Validating => e matches SraEvent::FinalLayout(_),
        SraPhase::DoneSkipped => false,
        SraPhase::DoneFresh => false,
        SraPhase::Failed => false,
    }
}

/// Whether the raw candidate at `i` exists.
pub open spec fn spec_raw_flag(m: SraMachine, i: int) -> bool {
    if i == 0 {
        m.raw_single
    } else if i == 1 {
        m.raw_r1
    } else {
        m.raw_r2
    }
}

/// The machine's invariant: try counts stay within budget, and while
/// compressing, the current index names an existing raw candidate.
pub open spec fn sra_wf(m: SraMachine) -> bool {
    &&& m.tries_done <= m.max_tries
    &&& ((m.phase == SraPhase::Fetching || m.phase == SraPhase::Extracting) ==> m.tries_done
        < m.max_tries)
    &&& (m.phase == SraPhase::Compressing ==> m.compress_idx <= 2 && spec_raw_flag(
        m,
        m.compress_idx as int,
    ))
}

/// The smallest raw-candidate index at or after `from` whose flag is
/// set, or 3 when none is.
pub open spec fn spec_first_raw(single: bool, r1: bool, r2: bool, from: int) -> int {
    if from <= 0 && single {
        0
    } else if from <= 1 && r1 {
        1
    } else if from <= 2 && r2 {
        2
    } else {
        3
    }
}

pub open spec fn spec_failed(m: SraMachine) -> SraMachine {
    SraMachine { phase: SraPhase::Failed, ..m }
}

/// Entry into the fetch stage; a zero try budget fails at once, as a
/// retry loop that may not run even once does.
pub open spec fn spec_enter_fetch(m: SraMachine) -> (SraMachine, SraAction) {
    if m.max_tries == 0 {
        (
            spec_failed(m),
            SraAction::Fail(SraFailure::CommandFailed { tool: ToolId::Prefetch, code: 1 }),
        )
    } else {
        (
            SraMachine { phase: SraPhase::Fetching, tries_done: 0, ..m },
            SraAction::RunPrefetch,
        )
    }
}

pub open spec fn spec_enter_extract(m: SraMachine) -> (SraMachine, SraAction) {
    if m.max_tries == 0 {
        (
            spec_failed(m),
            SraAction::Fail(SraFailure::CommandFailed { tool: ToolId::FasterqDump, code: 1 }),
        )
    } else {
        (
            SraMachine { phase: SraPhase::Extracting, tries_done: 0, ..m },
            SraAction::RunExtract,
        )
    }
}

/// The retrying stages' reaction to a tool exit: zero advances, the
/// distinguished code 3 is a fatal not-found, a missing status is
/// fatal, and any other code is retried until the budget is spent.
pub open spec fn spec_retry_exit(m: SraMachine, exited: bool, code: i32, tool: ToolId) -> (
    SraMachine,
    SraAction,
) {
    if exited && code == 0 {
        if tool == ToolId::Prefetch {
            spec_enter_extract(m)
        } else {
            (SraMachine { phase: SraPhase::Listing, ..m }, SraAction::ListRawFiles)
        }
    } else if exited && code == 3 {
        (spec_failed(m), SraAction::Fail(SraFailure::NotFound(tool)))
    } else if !exited {
        (spec_failed(m), SraAction::Fail(SraFailure::CommandFailed { tool, code: -1i32 }))
    } else if m.tries_done + 1 >= m.max_tries {
        (spec_failed(m), SraAction::Fail(SraFailure::CommandFailed { tool, code }))
    } else {
        (
            SraMachine { tries_done: (m.tries_done + 1) as usize, ..m },
            if tool == ToolId::Prefetch {
                SraAction::SleepThenPrefetch
            } else {
                SraAction::SleepThenExtract
            },
        )
    }
}

pub open spec fn spec_mark_made(m: SraMachine, i: int) -> SraMachine {
    if i == 0 {
        SraMachine { made_single: true, ..m }
    } else if i == 1 {
        SraMachine { made_r1: true, ..m }
    } else {
        SraMachine { made_r2: true, ..m }
    }
}

/// The compression stage's reaction to a compressor exit: one try per
/// file, success moves to the next existing raw candidate or on to
/// cleanup, and any failure is fatal.
pub open spec fn spec_compress_exit(m: SraMachine, exited: bool, code: i32) -> (
    SraMachine,
    SraAction,
) {
    if exited && code == 0 {
        let m2 = spec_mark_made(m, m.compress_idx as int);
        let nxt = spec_first_raw(m.raw_single, m.raw_r1, m.raw_r2, m.compress_idx + 1);
        if nxt <= 2 {
            (
                SraMachine { compress_idx: nxt as usize, ..m2 },
                SraAction::RunCompress(nxt as usize),
            )
        } else {
            (SraMachine { phase: SraPhase::Cleaning, ..m2 }, SraAction::RemoveContainer)
        }
    } else if exited && code == 3 {
        (spec_failed(m), SraAction::Fail(SraFailure::NotFound(ToolId::Pigz)))
    } else if !exited {
        (
            spec_failed(m),
            SraAction::Fail(SraFailure::CommandFailed { tool: ToolId::Pigz, code: -1i32 }),
        )
    } else {
        (
            spec_failed(m),
            SraAction::Fail(SraFailure::CommandFailed { tool: ToolId::Pigz, code }),
        )
    }
}

/// The transition relation of the pipeline; `None` when the event does
/// not fit the phase.
pub open spec fn spec_sra_next(m: SraMachine, e: SraEvent) -> Option<(SraMachine, SraAction)> {
    if !sra_event_fits(m.phase, e) {
        None
    } else {
        Some(
            match e {
                SraEvent::Tools { prefetch, fasterq_dump, pigz } => {
                    if !prefetch {
                        (
                            spec_failed(m),
                            SraAction::Fail(SraFailure::MissingTool(ToolId::Prefetch)),
                        )
                    } else if !fasterq_dump {
                        (
                            spec_failed(m),
                            SraAction::Fail(SraFailure::MissingTool(ToolId::FasterqDump)),
                        )
                    } else if !pigz {
                        (spec_failed(m), SraAction::Fail(SraFailure::MissingTool(ToolId::Pigz)))
                    } else if m.force {
                        (SraMachine { phase: SraPhase::Removing, ..m }, SraAction::RemoveOutputs)
                    } else {
                        (
                            SraMachine { phase: SraPhase::CheckingExisting, ..m },
                            SraAction::CheckExistingLayout,
                        )
                    }
                },
                SraEvent::ExistingLayout(ok) => if ok {
                    (SraMachine { phase: SraPhase::DoneSkipped, ..m }, SraAction::FinishSkipped)
                } else {
                    spec_enter_fetch(m)
                },
                SraEvent::OutputsRemoved => spec_enter_fetch(m),
                SraEvent::Exit { exited, code } => if m.phase == SraPhase::Fetching {
                    spec_retry_exit(m, exited, code, ToolId::Prefetch)
                } else if m.phase == SraPhase::Extracting {
                    spec_retry_exit(m, exited, code, ToolId::FasterqDump)
                } else {
                    spec_compress_exit(m, exited, code)
                },
                SraEvent::RawFiles { single, r1, r2 } => {
                    let m2 = SraMachine { raw_single: single, raw_r1: r1, raw_r2: r2, ..m };
                    let i = spec_first_raw(single, r1, r2, 0);
                    if i <= 2 {
                        (
                            SraMachine {
                                phase: SraPhase::Compressing,
                                compress_idx: i as usize,
                                ..m2
                            },
                            SraAction::RunCompress(i as usize),
                        )
                    } else {
                        (spec_failed(m2), SraAction::Fail(SraFailure::NoFastqProduced))
                    }
                },
                SraEvent::ContainerRemoved => (
                    SraMachine { phase: SraPhase::Validating, ..m },
                    SraAction::CheckFinalLayout,
                ),
                SraEvent::FinalLayout(ok) => if ok {
                    (SraMachine { phase: SraPhase::DoneFresh, ..m }, SraAction::FinishFresh)
                } else {
                    (spec_failed(m), SraAction::Fail(SraFailure::LayoutMismatch))
                },
            },
        )
    }
}

/// A fresh pipeline waiting for the tool check.
pub fn sra_init(force: bool, max_tries: usize) -> (m: SraMachine)
    ensures
        m.phase == SraPhase::CheckingTools,
        m.force == force,
        m.max_tries == max_tries,
        m.tries_done == 0,
        sra_wf(m),
{
    SraMachine {
        phase: SraPhase::CheckingTools,
        force,
        max_tries,
        tries_done: 0,
        raw_single: false,
        raw_r1: false,
        raw_r2: false,
        compress_idx: 0,
        made_single: false,
        made_r1: false,
        made_r2: false,
    }
}

/// Advances the pipeline on one observation.
#[verifier::rlimit(60)]
pub fn sra_step(m: &mut SraMachine, e: SraEvent) -> (a: SraAction)
    requires
        sra_wf(*old(m)),
        sra_event_fits(old(m).phase, e),
    ensures
        spec_sra_next(*old(m), e) == Some((*final(m), a)),
        sra_wf(*final(m)),
        final(m).max_tries == old(m).max_tries,
        final(m).force == old(m).force,
{
    match e {
        SraEvent::Tools { prefetch, fasterq_dump, pigz } => {
            if !prefetch {
                m.phase = SraPhase::Failed;
                SraAction::Fail(SraFailure::MissingTool(ToolId::Prefetch))
            } else if !fasterq_dump {
                m.phase = SraPhase::Failed;
                SraAction::Fail(SraFailure::MissingTool(ToolId::FasterqDump))
            } else if !pigz {
                m.phase = SraPhase::Failed;
                SraAction::Fail(SraFailure::MissingTool(ToolId::Pigz))
            } else if m.force {
                m.phase = SraPhase::Removing;
                SraAction::RemoveOutputs
            } else {
                m.phase = SraPhase::CheckingExisting;
                SraAction::CheckExistingLayout
            }
        },
        SraEvent::ExistingLayout(ok) => {
            if ok {
                m.phase = SraPhase::DoneSkipped;
                SraAction::FinishSkipped
            } else {
                enter_fetch(m)
            }
        },
        SraEvent::OutputsRemoved => enter_fetch(m),
        SraEvent::Exit { exited, code } => {
            if m.phase == SraPhase::Fetching {
                retry_exit(m, exited, code, ToolId::Prefetch)
            } else if m.phase == SraPhase::Extracting {
                retry_exit(m, exited, code, ToolId::FasterqDump)
            } else {
                compress_exit(m, exited, code)
            }
        },
        SraEvent::RawFiles { single, r1, r2 } => {
            m.raw_single = single;
            m.raw_r1 = r1;
            m.raw_r2 = r2;
            if single {
                m.phase = SraPhase::Compressing;
                m.compress_idx = 0;
                SraAction::RunCompress(0)
            } else if r1 {
                m.phase = SraPhase::Compressing;
                m.compress_idx = 1;
                SraAction::RunCompress(1)
            } else if r2 {
                m.phase = SraPhase::Compressing;
                m.compress_idx = 2;
                SraAction::RunCompress(2)
            } else {
                m.phase = SraPhase::Failed;
                SraAction::Fail(SraFailure::NoFastqProduced)
            }
        },
        SraEvent::ContainerRemoved => {
            m.phase = SraPhase::Validating;
            SraAction::CheckFinalLayout
        },
        SraEvent::FinalLayout(ok) => {
            if ok {
                m.phase = SraPhase::DoneFresh;
                SraAction::FinishFresh
            } else {
                m.phase = SraPhase::Failed;
                SraAction::Fail(SraFailure::LayoutMismatch)
            }
        },
    }
}

fn enter_fetch(m: &mut SraMachine) -> (a: SraAction)
    ensures
        spec_enter_fetch(*old(m)) == (*final(m), a),
        final(m).max_tries == old(m).max_tries,
        final(m).force == old(m).force,
{
    if m.max_tries == 0 {
        m.phase = SraPhase::Failed;
        SraAction::Fail(SraFailure::CommandFailed { tool: ToolId::Prefetch, code: 1 })
    } else {
        m.phase = SraPhase::Fetching;
        m.tries_done = 0;
        SraAction::RunPrefetch
    }
}

fn retry_exit(m: &mut SraMachine, exited: bool, code: i32, tool: ToolId) -> (a: SraAction)
    requires
        old(m).tries_done < old(m).max_tries,
        old(m).phase == SraPhase::Fetching || old(m).phase == SraPhase::Extracting,
    ensures
        spec_retry_exit(*old(m), exited, code, tool) == (*final(m), a),
        final(m).max_tries == old(m).max_tries,
        final(m).force == old(m).force,
{
    if exited && code == 0 {
        if tool == ToolId::Prefetch {
            if m.max_tries == 0 {
                m.phase = SraPhase::Failed;
                SraAction::Fail(SraFailure::CommandFailed { tool: ToolId::FasterqDump, code: 1 })
            } else {
                m.phase = SraPhase::Extracting;
                m.tries_done = 0;
                SraAction::RunExtract
            }
        } else {
            m.phase = SraPhase::Listing;
            SraAction::ListRawFiles
        }
    } else if exited && code == 3 {
        m.phase = SraPhase::Failed;
        SraAction::Fail(SraFailure::NotFound(tool))
    } else if !exited {
        m.phase = SraPhase::Failed;
        SraAction::Fail(SraFailure::CommandFailed { tool, code: -1i32 })
    } else if m.tries_done + 1 >= m.max_tries {
        m.phase = SraPhase::Failed;
        SraAction::Fail(SraFailure::CommandFailed { tool, code })
    } else {
        m.tries_done += 1;
        if tool == ToolId::Prefetch {
            SraAction::SleepThenPrefetch
        } else {
            SraAction::SleepThenExtract
        }
    }
}

fn compress_exit(m: &mut SraMachine, exited: bool, code: i32) -> (a: SraAction)
    requires
        old(m).phase == SraPhase::Compressing,
        old(m).compress_idx <= 2,
    ensures
        spec_compress_exit(*old(m), exited, code) == (*final(m), a),
        final(m).max_tries == old(m).max_tries,
        final(m).force == old(m).force,
{
    if exited && code == 0 {
        if m.compress_idx == 0 {
            m.made_single = true;
        } else if m.compress_idx == 1 {
            m.made_r1 = true;
        } else {
            m.made_r2 = true;
        }
        if m.compress_idx < 1 && m.raw_r1 {
            m.compress_idx = 1;
            SraAction::RunCompress(1)
        } else if m.compress_idx < 2 && m.raw_r2 {
            m.compress_idx = 2;
            SraAction::RunCompress(2)
        } else {
            m.phase = SraPhase::Cleaning;
            SraAction::RemoveContainer
        }
    } else if exited && code == 3 {
        m.phase = SraPhase::Failed;
        SraAction::Fail(SraFailure::NotFound(ToolId::Pigz))
    } else if !exited {
        m.phase = SraPhase::Failed;
        SraAction::Fail(SraFailure::CommandFailed { tool: ToolId::Pigz, code: -1i32 })
    } else {
        m.phase = SraPhase::Failed;
        SraAction::Fail(SraFailure::CommandFailed { tool: ToolId::Pigz, code })
    }
}

/// With all tools present and overwrite off, outputs that already
/// satisfy the layout end the pipeline as skipped right after the tool
/// check: no fetch, extraction or compression is ever started.
pub proof fn lemma_sra_idempotent_skip(m: SraMachine)
    requires
        m.phase == SraPhase::CheckingTools,
        !m.force,
    ensures
        ({
            let (m1, a1) = spec_sra_next(
                m,
                SraEvent::Tools { prefetch: true, fasterq_dump: true, pigz: true },
            ).unwrap();
            a1 == SraAction::CheckExistingLayout && {
                let (m2, a2) = spec_sra_next(m1, SraEvent::ExistingLayout(true)).unwrap();
                m2.phase == SraPhase::DoneSkipped && a2 == SraAction::FinishSkipped
            }
        }),
{
}

/// A missing tool fails the pipeline while it is still checking tools:
/// the failure is the first missing tool, and no stage has run.
pub proof fn lemma_missing_tool_fails_first(m: SraMachine, p: bool, f: bool, z: bool)
    requires
        m.phase == SraPhase::CheckingTools,
        !(p && f && z),
    ensures
        ({
            let (m2, a) = spec_sra_next(
                m,
                SraEvent::Tools { prefetch: p, fasterq_dump: f, pigz: z },
            ).unwrap();
            m2.phase == SraPhase::Failed && a == SraAction::Fail(
                SraFailure::MissingTool(
                    if !p {
                        ToolId::Prefetch
                    } else if !f {
                        ToolId::FasterqDump
                    } else {
                        ToolId::Pigz
                    },
                ),
            )
        }),
{
}

} // verus!
