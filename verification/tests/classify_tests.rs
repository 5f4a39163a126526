use rsfq::accession::{classify, parse_accession_arg, parse_accession_lines, validate_query, AccessionClass, AccessionType};
use rsfq::errors::InputError;

#[test]
fn classify_project_and_study() {
    assert_eq!(classify("PRJEB12345"), Some(AccessionClass::ProjectStudy));
    assert_eq!(classify("PRJNA9876"), Some(AccessionClass::ProjectStudy));
    assert_eq!(classify("SRP123456"), Some(AccessionClass::ProjectStudy));
    assert_eq!(classify("ERP000001"), Some(AccessionClass::ProjectStudy));
    assert_eq!(classify("DRP999999"), Some(AccessionClass::ProjectStudy));
}

#[test]
fn classify_sample_and_biosample() {
    assert_eq!(classify("SAMEA123456"), Some(AccessionClass::SampleBiosample));
    assert_eq!(classify("SAMN0001"), Some(AccessionClass::SampleBiosample));
    assert_eq!(classify("SAMD5"), Some(AccessionClass::SampleBiosample));
    assert_eq!(classify("ERS123456"), Some(AccessionClass::SampleBiosample));
    assert_eq!(classify("SRS000123"), Some(AccessionClass::SampleBiosample));
}

#[test]
fn classify_experiment() {
    assert_eq!(classify("SRX123456"), Some(AccessionClass::Experiment));
    assert_eq!(classify("ERX654321"), Some(AccessionClass::Experiment));
    assert_eq!(classify("DRX111111"), Some(AccessionClass::Experiment));
}

#[test]
fn classify_run() {
    assert_eq!(classify("SRR000001"), Some(AccessionClass::Run));
    assert_eq!(classify("ERR000002"), Some(AccessionClass::Run));
    assert_eq!(classify("DRR123456"), Some(AccessionClass::Run));
}

#[test]
fn classify_rejects_unmatched_strings() {
    assert_eq!(classify(""), None);
    assert_eq!(classify("FOO123"), None);
    assert_eq!(classify("srr000001"), None);
    assert_eq!(classify("SRR12"), None); // fewer than six digits
    assert_eq!(classify("SRR12345"), None); // five digits
    assert_eq!(classify("PRJXB12345"), None); // bad registry letter
    assert_eq!(classify("SRR00000a"), None); // non-digit tail
    assert_eq!(classify("XRR123456"), None); // bad archive letter
    assert_eq!(classify("SAME"), None); // no digits
}

#[test]
fn query_for_study_accession() {
    let q = validate_query("PRJEB12345").unwrap();
    assert_eq!(
        q,
        "(study_accession=PRJEB12345 OR secondary_study_accession=PRJEB12345)"
    );
}

#[test]
fn query_for_sample_accession() {
    let q = validate_query("SAMEA123456").unwrap();
    assert_eq!(
        q,
        "(sample_accession=SAMEA123456 OR secondary_sample_accession=SAMEA123456)"
    );
}

#[test]
fn query_for_experiment_accession() {
    let q = validate_query("SRX123456").unwrap();
    assert_eq!(q, "experiment_accession=SRX123456");
}

#[test]
fn query_for_run_accession() {
    let q = validate_query("SRR000001").unwrap();
    assert_eq!(q, "run_accession=SRR000001");
}

#[test]
fn query_for_invalid_accession_is_input_error() {
    assert_eq!(validate_query("NOT_AN_ACCESSION"), Err(InputError::InvalidAccession));
}

#[test]
fn accession_arg_single() {
    match parse_accession_arg("SRR000001") {
        AccessionType::Single(a) => assert_eq!(a, "SRR000001"),
        AccessionType::List(_) => panic!("expected a single accession"),
    }
}

#[test]
fn accession_arg_comma_list_is_trimmed() {
    match parse_accession_arg("SRR000001, ERR000002 ,DRR000003") {
        AccessionType::List(v) => {
            assert_eq!(v, vec!["SRR000001", "ERR000002", "DRR000003"]);
        }
        AccessionType::Single(_) => panic!("expected a list"),
    }
}

#[test]
fn accession_lines_are_trimmed() {
    let v = parse_accession_lines("SRR000001\n  ERR000002\t\nDRR000003");
    assert_eq!(v, vec!["SRR000001", "ERR000002", "DRR000003"]);
}
