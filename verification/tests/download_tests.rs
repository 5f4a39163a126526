use rsfq::download::{
    dl_init, dl_step, find_file_entry, should_skip_download, DlAction, DlEvent, DlPhase, Retriever,
};

#[test]
fn skip_decision_trusts_existing_files() {
    // An already-complete destination with overwrite off is skipped:
    // no transfer runs at all.
    assert!(should_skip_download(true, false));
    assert!(!should_skip_download(true, true));
    assert!(!should_skip_download(false, false));
    assert!(!should_skip_download(false, true));
}

#[test]
fn download_succeeds_first_try_with_matching_checksum() {
    let mut s = dl_init(10, false);
    let a = dl_step(&mut s, DlEvent::Exit(0), "aabb11");
    assert_eq!(a, DlAction::ComputeChecksum);
    assert_eq!(s.phase, DlPhase::Verifying);
    let a = dl_step(&mut s, DlEvent::Digest("aabb11".to_string()), "aabb11");
    assert_eq!(a, DlAction::ReportSuccess);
    assert_eq!(s.phase, DlPhase::Succeeded);
    assert_eq!(s.failures, 0, "a clean first try logs zero retries");
}

#[test]
fn checksum_comparison_ignores_hex_case() {
    let mut s = dl_init(3, false);
    dl_step(&mut s, DlEvent::Exit(0), "AABB11");
    let a = dl_step(&mut s, DlEvent::Digest("aabb11".to_string()), "AABB11");
    assert_eq!(a, DlAction::ReportSuccess);
}

#[test]
fn force_mode_skips_verification() {
    let mut s = dl_init(3, true);
    let a = dl_step(&mut s, DlEvent::Exit(0), "ignored");
    assert_eq!(a, DlAction::ReportSuccess);
    assert_eq!(s.phase, DlPhase::Succeeded);
}

#[test]
fn bad_exits_retry_until_budget_spent() {
    let mut s = dl_init(2, false);
    let mut sleeps = 0;
    loop {
        let a = dl_step(&mut s, DlEvent::Exit(1), "aabb11");
        match a {
            DlAction::SleepThenTransfer => sleeps += 1,
            DlAction::ReportFailure => break,
            _ => panic!("unexpected action"),
        }
    }
    assert_eq!(s.phase, DlPhase::Failed);
    assert_eq!(sleeps, 2, "two retries after the first failure");
}

#[test]
fn mismatched_checksums_never_accepted() {
    // A destination whose content checksum never matches is retried up
    // to the bound and then reported failed, never accepted.
    let mut s = dl_init(3, false);
    let mut transfers = 0;
    loop {
        transfers += 1;
        let a = dl_step(&mut s, DlEvent::Exit(0), "expected00");
        assert_eq!(a, DlAction::ComputeChecksum);
        let a = dl_step(&mut s, DlEvent::Digest("observed11".to_string()), "expected00");
        match a {
            DlAction::SleepThenTransfer => continue,
            DlAction::ReportFailure => break,
            _ => panic!("a mismatched checksum must never be accepted"),
        }
    }
    assert_eq!(s.phase, DlPhase::Failed);
    assert_eq!(transfers, 4, "three retries after the first mismatch");
}

#[test]
fn retriever_parsing_and_programs() {
    assert_eq!(Retriever::parse("wget"), Some(Retriever::Wget));
    assert_eq!(Retriever::parse("aria2c"), Some(Retriever::Aria2c));
    assert_eq!(Retriever::parse("curl"), Some(Retriever::Curl));
    assert_eq!(Retriever::parse("scp"), None);
    assert_eq!(Retriever::Wget.program(), "wget");
    assert_eq!(Retriever::Aria2c.program(), "aria2c");
    assert_eq!(Retriever::Curl.program(), "curl");
}

#[test]
fn retriever_argument_shapes() {
    let url = "host/f.fastq.gz";
    let out = "/tmp/f.fastq.gz";
    assert_eq!(
        Retriever::Wget.arguments(url, out),
        vec!["--no-check-certificate", "-O", out, url]
    );
    assert_eq!(
        Retriever::Aria2c.arguments(url, out),
        vec!["-x4", "-c", "-o /tmp/f.fastq.gz", "http://host/f.fastq.gz"]
    );
    assert_eq!(Retriever::Curl.arguments(url, out), vec!["-o", out, url]);
}

#[test]
fn find_file_entry_takes_first_matching_file() {
    let names = vec![
        "a.fastq.gz".to_string(),
        "b.fastq.gz".to_string(),
        "b.fastq.gz".to_string(),
    ];
    let is_file = vec![true, false, true];
    assert_eq!(find_file_entry(&names, &is_file, "a.fastq.gz"), Some(0));
    // The directory at position 1 is passed over.
    assert_eq!(find_file_entry(&names, &is_file, "b.fastq.gz"), Some(2));
    assert_eq!(find_file_entry(&names, &is_file, "c.fastq.gz"), None);
}
