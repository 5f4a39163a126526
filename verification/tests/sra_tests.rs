use rsfq::run::sra_fallback_to_ena;
use rsfq::sra::{
    ensure_tools, sra_error_of, sra_init, sra_step, tool_name, SRAError, SraAction, SraEvent,
    SraFailure, SraPhase, ToolId,
};

#[test]
fn tool_names() {
    assert_eq!(tool_name(ToolId::Prefetch), "prefetch");
    assert_eq!(tool_name(ToolId::FasterqDump), "fasterq-dump");
    assert_eq!(tool_name(ToolId::Pigz), "pigz");
}

#[test]
fn missing_tools_reported_in_order() {
    assert_eq!(
        ensure_tools(false, true, true),
        Err(SRAError::MissingTool("prefetch"))
    );
    assert_eq!(
        ensure_tools(true, false, true),
        Err(SRAError::MissingTool("fasterq-dump"))
    );
    assert_eq!(
        ensure_tools(true, true, false),
        Err(SRAError::MissingTool("pigz"))
    );
    assert_eq!(ensure_tools(true, true, true), Ok(()));
}

#[test]
fn error_rendering_carries_accession() {
    assert_eq!(
        sra_error_of(SraFailure::NoFastqProduced, "SRR5"),
        SRAError::NoFastqProduced("SRR5".to_string())
    );
    assert_eq!(
        sra_error_of(SraFailure::LayoutMismatch, "SRR5"),
        SRAError::LayoutMismatch("SRR5".to_string())
    );
    assert_eq!(
        sra_error_of(SraFailure::CommandFailed { tool: ToolId::Pigz, code: 7 }, "SRR5"),
        SRAError::CommandFailed { tool: "pigz", code: 7 }
    );
    assert_eq!(
        sra_error_of(SraFailure::NotFound(ToolId::Prefetch), "SRR5"),
        SRAError::NotFound("prefetch")
    );
}

#[test]
fn pipeline_happy_path_paired() {
    let mut m = sra_init(false, 3);
    let a = sra_step(&mut m, SraEvent::Tools { prefetch: true, fasterq_dump: true, pigz: true });
    assert_eq!(a, SraAction::CheckExistingLayout);
    let a = sra_step(&mut m, SraEvent::ExistingLayout(false));
    assert_eq!(a, SraAction::RunPrefetch);
    let a = sra_step(&mut m, SraEvent::Exit { exited: true, code: 0 });
    assert_eq!(a, SraAction::RunExtract);
    let a = sra_step(&mut m, SraEvent::Exit { exited: true, code: 0 });
    assert_eq!(a, SraAction::ListRawFiles);
    let a = sra_step(&mut m, SraEvent::RawFiles { single: false, r1: true, r2: true });
    assert_eq!(a, SraAction::RunCompress(1));
    let a = sra_step(&mut m, SraEvent::Exit { exited: true, code: 0 });
    assert_eq!(a, SraAction::RunCompress(2));
    let a = sra_step(&mut m, SraEvent::Exit { exited: true, code: 0 });
    assert_eq!(a, SraAction::RemoveContainer);
    let a = sra_step(&mut m, SraEvent::ContainerRemoved);
    assert_eq!(a, SraAction::CheckFinalLayout);
    let a = sra_step(&mut m, SraEvent::FinalLayout(true));
    assert_eq!(a, SraAction::FinishFresh);
    assert_eq!(m.phase, SraPhase::DoneFresh);
    assert!(!m.made_single);
    assert!(m.made_r1);
    assert!(m.made_r2);
}

#[test]
fn pipeline_skips_existing_outputs() {
    // Idempotence: outputs already satisfying the layout end the
    // pipeline with no fetch, extraction or compression started.
    let mut m = sra_init(false, 3);
    let a = sra_step(&mut m, SraEvent::Tools { prefetch: true, fasterq_dump: true, pigz: true });
    assert_eq!(a, SraAction::CheckExistingLayout);
    let a = sra_step(&mut m, SraEvent::ExistingLayout(true));
    assert_eq!(a, SraAction::FinishSkipped);
    assert_eq!(m.phase, SraPhase::DoneSkipped);
}

#[test]
fn pipeline_force_removes_outputs_without_checking() {
    let mut m = sra_init(true, 3);
    let a = sra_step(&mut m, SraEvent::Tools { prefetch: true, fasterq_dump: true, pigz: true });
    assert_eq!(a, SraAction::RemoveOutputs);
    let a = sra_step(&mut m, SraEvent::OutputsRemoved);
    assert_eq!(a, SraAction::RunPrefetch);
}

#[test]
fn pipeline_missing_tool_fails_before_any_work() {
    let mut m = sra_init(false, 3);
    let a = sra_step(&mut m, SraEvent::Tools { prefetch: false, fasterq_dump: true, pigz: true });
    assert_eq!(a, SraAction::Fail(SraFailure::MissingTool(ToolId::Prefetch)));
    assert_eq!(m.phase, SraPhase::Failed);
    // The rendered error is the fallback signal the caller consumes.
    let err = sra_error_of(SraFailure::MissingTool(ToolId::Prefetch), "SRR1");
    assert_eq!(err, SRAError::MissingTool("prefetch"));
    assert!(sra_fallback_to_ena(&err));
}

#[test]
fn fallback_only_on_missing_tool() {
    assert!(sra_fallback_to_ena(&SRAError::MissingTool("prefetch")));
    assert!(!sra_fallback_to_ena(&SRAError::NotFound("prefetch")));
    assert!(!sra_fallback_to_ena(&SRAError::CommandFailed { tool: "pigz", code: 1 }));
    assert!(!sra_fallback_to_ena(&SRAError::NoFastqProduced("SRR1".to_string())));
    assert!(!sra_fallback_to_ena(&SRAError::LayoutMismatch("SRR1".to_string())));
    assert!(!sra_fallback_to_ena(&SRAError::Io("disk".to_string())));
}

#[test]
fn fetch_not_found_exit_is_fatal_not_retried() {
    let mut m = sra_init(false, 5);
    sra_step(&mut m, SraEvent::Tools { prefetch: true, fasterq_dump: true, pigz: true });
    sra_step(&mut m, SraEvent::ExistingLayout(false));
    let a = sra_step(&mut m, SraEvent::Exit { exited: true, code: 3 });
    assert_eq!(a, SraAction::Fail(SraFailure::NotFound(ToolId::Prefetch)));
    assert_eq!(m.phase, SraPhase::Failed);
}

#[test]
fn fetch_transient_failures_retry_until_budget_spent() {
    let mut m = sra_init(false, 3);
    sra_step(&mut m, SraEvent::Tools { prefetch: true, fasterq_dump: true, pigz: true });
    sra_step(&mut m, SraEvent::ExistingLayout(false));
    let a = sra_step(&mut m, SraEvent::Exit { exited: true, code: 1 });
    assert_eq!(a, SraAction::SleepThenPrefetch);
    let a = sra_step(&mut m, SraEvent::Exit { exited: true, code: 1 });
    assert_eq!(a, SraAction::SleepThenPrefetch);
    let a = sra_step(&mut m, SraEvent::Exit { exited: true, code: 1 });
    assert_eq!(
        a,
        SraAction::Fail(SraFailure::CommandFailed { tool: ToolId::Prefetch, code: 1 })
    );
    assert_eq!(m.phase, SraPhase::Failed);
}

#[test]
fn extraction_without_raw_files_fails() {
    let mut m = sra_init(false, 3);
    sra_step(&mut m, SraEvent::Tools { prefetch: true, fasterq_dump: true, pigz: true });
    sra_step(&mut m, SraEvent::ExistingLayout(false));
    sra_step(&mut m, SraEvent::Exit { exited: true, code: 0 });
    sra_step(&mut m, SraEvent::Exit { exited: true, code: 0 });
    let a = sra_step(&mut m, SraEvent::RawFiles { single: false, r1: false, r2: false });
    assert_eq!(a, SraAction::Fail(SraFailure::NoFastqProduced));
}

#[test]
fn compression_failure_is_fatal_single_try() {
    let mut m = sra_init(false, 5);
    sra_step(&mut m, SraEvent::Tools { prefetch: true, fasterq_dump: true, pigz: true });
    sra_step(&mut m, SraEvent::ExistingLayout(false));
    sra_step(&mut m, SraEvent::Exit { exited: true, code: 0 });
    sra_step(&mut m, SraEvent::Exit { exited: true, code: 0 });
    sra_step(&mut m, SraEvent::RawFiles { single: true, r1: false, r2: false });
    let a = sra_step(&mut m, SraEvent::Exit { exited: true, code: 2 });
    assert_eq!(
        a,
        SraAction::Fail(SraFailure::CommandFailed { tool: ToolId::Pigz, code: 2 })
    );
}

#[test]
fn final_layout_mismatch_fails_rather_than_partial_output() {
    let mut m = sra_init(false, 3);
    sra_step(&mut m, SraEvent::Tools { prefetch: true, fasterq_dump: true, pigz: true });
    sra_step(&mut m, SraEvent::ExistingLayout(false));
    sra_step(&mut m, SraEvent::Exit { exited: true, code: 0 });
    sra_step(&mut m, SraEvent::Exit { exited: true, code: 0 });
    sra_step(&mut m, SraEvent::RawFiles { single: true, r1: false, r2: false });
    sra_step(&mut m, SraEvent::Exit { exited: true, code: 0 });
    sra_step(&mut m, SraEvent::ContainerRemoved);
    let a = sra_step(&mut m, SraEvent::FinalLayout(false));
    assert_eq!(a, SraAction::Fail(SraFailure::LayoutMismatch));
    assert_eq!(m.phase, SraPhase::Failed);
}

#[test]
fn zero_try_budget_fails_at_entry() {
    let mut m = sra_init(false, 0);
    sra_step(&mut m, SraEvent::Tools { prefetch: true, fasterq_dump: true, pigz: true });
    let a = sra_step(&mut m, SraEvent::ExistingLayout(false));
    assert_eq!(
        a,
        SraAction::Fail(SraFailure::CommandFailed { tool: ToolId::Prefetch, code: 1 })
    );
}
