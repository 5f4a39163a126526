use rsfq::metadata::{classify_response, ENAServerResponse};
use rsfq::record::{parse_records, RunRecord};

#[test]
fn parse_one_record() {
    let body = "run_accession\tlibrary_layout\tfastq_ftp\nSRR1\tSINGLE\thost/SRR1.fastq.gz\n";
    let records = parse_records(body);
    assert_eq!(records.len(), 1);
    assert_eq!(records[0].get("run_accession").unwrap(), "SRR1");
    assert_eq!(records[0].get("library_layout").unwrap(), "SINGLE");
    assert_eq!(records[0].get("fastq_ftp").unwrap(), "host/SRR1.fastq.gz");
    assert!(records[0].get("fastq_md5").is_none());
}

#[test]
fn parse_omits_empty_values() {
    let body = "a\tb\tc\nx\t\tz\n";
    let records = parse_records(body);
    assert_eq!(records.len(), 1);
    assert_eq!(records[0].get("a").unwrap(), "x");
    assert!(records[0].get("b").is_none(), "empty values are omitted, never stored");
    assert_eq!(records[0].get("c").unwrap(), "z");
    assert_eq!(records[0].len(), 2);
}

#[test]
fn parse_skips_blank_lines_and_carriage_returns() {
    let body = "a\tb\r\n1\t2\r\n\r\n3\t4\r\n";
    let records = parse_records(body);
    assert_eq!(records.len(), 2);
    assert_eq!(records[0].get("a").unwrap(), "1");
    assert_eq!(records[1].get("b").unwrap(), "4");
}

#[test]
fn parse_extra_values_beyond_headers_are_dropped() {
    let body = "a\nx\ty\n";
    let records = parse_records(body);
    assert_eq!(records.len(), 1);
    assert_eq!(records[0].get("a").unwrap(), "x");
    assert_eq!(records[0].len(), 1);
}

#[test]
fn parse_empty_body_yields_no_records() {
    assert_eq!(parse_records("").len(), 0);
    assert_eq!(parse_records("header_only\n").len(), 0);
}

#[test]
fn response_success_needs_records() {
    let body = "run_accession\nSRR1\n";
    match classify_response(200, body) {
        ENAServerResponse::Success(data) => {
            assert_eq!(data.len(), 1);
            assert_eq!(data[0].get("run_accession").unwrap(), "SRR1");
        }
        ENAServerResponse::Error(_, _) => panic!("expected records"),
    }
}

#[test]
fn response_empty_body_is_retryable_error() {
    match classify_response(200, "run_accession\n") {
        ENAServerResponse::Error(status, _) => assert_eq!(status, 200),
        ENAServerResponse::Success(_) => panic!("zero records must not be a success"),
    }
    match classify_response(204, "") {
        ENAServerResponse::Error(status, _) => assert_eq!(status, 200),
        ENAServerResponse::Success(_) => panic!("zero records must not be a success"),
    }
}

#[test]
fn response_failure_keeps_status_and_body() {
    match classify_response(500, "server fell over") {
        ENAServerResponse::Error(status, text) => {
            assert_eq!(status, 500);
            assert_eq!(text, "server fell over");
        }
        ENAServerResponse::Success(_) => panic!("a non-success status is an error"),
    }
}

#[test]
fn record_lookup_finds_first_match() {
    let rec = RunRecord {
        fields: vec![
            ("k".to_string(), "first".to_string()),
            ("k".to_string(), "second".to_string()),
        ],
    };
    assert_eq!(rec.get("k").unwrap(), "first");
    assert!(rec.get("absent").is_none());
}
