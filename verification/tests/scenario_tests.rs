use rsfq::accession::{classify, validate_query, AccessionClass};
use rsfq::download::{dl_init, dl_step, should_skip_download, DlAction, DlEvent, DlPhase};
use rsfq::ena::plan_record_downloads;
use rsfq::layout::Layout;
use rsfq::metadata::{classify_response, fetch_init, fetch_step, ENAServerResponse, FetchDecision};
use rsfq::run::{probe_status, run_mode, ProbeStatus, RunMode};
use rsfq::sra::{ensure_tools, SRAError};
use rsfq::run::sra_fallback_to_ena;

#[test]
fn single_layout_run_downloads_first_try() {
    // One SINGLE-layout record with one remote/checksum pair; the
    // transfer succeeds at once and the checksum matches: one output
    // file, zero retries.
    let accession = "SRR000001";
    assert_eq!(classify(accession), Some(AccessionClass::Run));
    assert_eq!(validate_query(accession).unwrap(), "run_accession=SRR000001");

    let body = "run_accession\tlibrary_layout\tfastq_ftp\tfastq_md5\n\
                SRR000001\tSINGLE\thost/vol1/SRR000001.fastq.gz\t900150983cd24fb0d6963f7d28e17f72\n";
    let mut fetch = fetch_init(10);
    let resp = classify_response(200, body);
    assert_eq!(fetch_step(&mut fetch, &resp), FetchDecision::Accept);
    let records = match resp {
        ENAServerResponse::Success(data) => data,
        ENAServerResponse::Error(_, _) => panic!("expected records"),
    };
    assert_eq!(records.len(), 1);

    let jobs = plan_record_downloads(&records[0], Layout::Global).unwrap();
    assert_eq!(jobs.len(), 1);
    assert_eq!(jobs[0].file_name, "SRR000001.fastq.gz");

    assert!(!should_skip_download(false, false));
    let mut dl = dl_init(10, false);
    assert_eq!(dl_step(&mut dl, DlEvent::Exit(0), &jobs[0].md5), DlAction::ComputeChecksum);
    let digest = "900150983cd24fb0d6963f7d28e17f72".to_string();
    assert_eq!(dl_step(&mut dl, DlEvent::Digest(digest), &jobs[0].md5), DlAction::ReportSuccess);
    assert_eq!(dl.phase, DlPhase::Succeeded);
    assert_eq!(dl.failures, 0, "zero retries were needed");
}

#[test]
fn empty_metadata_thrice_then_success() {
    // The metadata body is empty three times, then carries a record:
    // exactly three retry sleeps before success.
    let accession = "ERR000002";
    assert_eq!(validate_query(accession).unwrap(), "run_accession=ERR000002");
    let mut fetch = fetch_init(10);
    let mut sleeps = 0;
    for _ in 0..3 {
        let resp = classify_response(200, "");
        match fetch_step(&mut fetch, &resp) {
            FetchDecision::RetryAfterSleep => sleeps += 1,
            _ => panic!("an empty body is a retryable failure"),
        }
    }
    let body = "run_accession\tlibrary_layout\tfastq_ftp\tfastq_md5\n\
                ERR000002\tSINGLE\thost/ERR000002.fastq.gz\taa11\n";
    let resp = classify_response(200, body);
    assert_eq!(fetch_step(&mut fetch, &resp), FetchDecision::Accept);
    assert_eq!(sleeps, 3);
}

#[test]
fn missing_fetch_tool_falls_back_to_direct_download() {
    // The toolchain provider is selected but its fetch tool is absent:
    // the distinguishable signal sends the same record down the
    // direct-download path.
    let err = ensure_tools(false, true, true).unwrap_err();
    assert_eq!(err, SRAError::MissingTool("prefetch"));
    assert!(sra_fallback_to_ena(&err));

    let body = "run_accession\tlibrary_layout\tfastq_ftp\tfastq_md5\n\
                SRR000001\tSINGLE\thost/SRR000001.fastq.gz\taa11\n";
    let records = match classify_response(200, body) {
        ENAServerResponse::Success(data) => data,
        ENAServerResponse::Error(_, _) => panic!("expected records"),
    };
    let jobs = plan_record_downloads(&records[0], Layout::Global).unwrap();
    assert_eq!(jobs.len(), 1);
    assert_eq!(jobs[0].url, "host/SRR000001.fastq.gz");
}

#[test]
fn probe_reports_downloadable_only_with_remote_files() {
    let body = "run_accession\tfastq_ftp\nSRR1\thost/SRR1.fastq.gz\n";
    let records = match classify_response(200, body) {
        ENAServerResponse::Success(data) => data,
        ENAServerResponse::Error(_, _) => panic!("expected records"),
    };
    assert_eq!(probe_status(Some(&records[0])), ProbeStatus::Downloadable);
    assert_eq!(probe_status(None), ProbeStatus::NotFound);

    let body2 = "run_accession\nSRR1\n";
    let records2 = match classify_response(200, body2) {
        ENAServerResponse::Success(data) => data,
        ENAServerResponse::Error(_, _) => panic!("expected records"),
    };
    assert_eq!(probe_status(Some(&records2[0])), ProbeStatus::NotFound);
}

#[test]
fn mode_selection() {
    assert_eq!(run_mode(false, false), RunMode::Download);
    assert_eq!(run_mode(true, false), RunMode::MetadataOnly);
    assert_eq!(run_mode(false, true), RunMode::Probe);
    assert_eq!(run_mode(true, true), RunMode::Probe);
}

#[test]
fn skip_then_download_is_idempotent() {
    // First pass: the file does not exist, the download runs and
    // succeeds. Second pass with overwrite off: skipped outright,
    // zero transfer attempts.
    let expected = "aa11";
    assert!(!should_skip_download(false, false));
    let mut dl = dl_init(5, false);
    dl_step(&mut dl, DlEvent::Exit(0), expected);
    dl_step(&mut dl, DlEvent::Digest("AA11".to_string()), expected);
    assert_eq!(dl.phase, DlPhase::Succeeded);
    // The destination now exists; the second call never starts a
    // transfer machine at all.
    assert!(should_skip_download(true, false));
}
