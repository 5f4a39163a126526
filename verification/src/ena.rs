//! Planning the direct-download path for one run record: which remote
//! files to fetch, under which local names, against which checksums.
//!
//! A record is validated before any transfer: its required fields must
//! be present, its remote-file and checksum lists must pair up, the
//! number of files must fit the expected layout, every remote name must
//! fit the accession's naming, and every checksum must be non-empty.
//! Checks run in that order; the first failure names the record's
//! problem exactly.

use vstd::prelude::*;
use vstd::string::StrSliceExecFns;

use crate::errors::{FieldId, InputError};
use crate::layout::Layout;
use crate::record::{spec_lookup, RunRecord};
use crate::text::{
    after_last, file_name_of, spec_ends_with, spec_split, split_str, str_concat, str_ends_with,
    str_eq,
};

verus! {

/// One planned transfer: a remote file, the local name it lands under,
/// and the checksum it must match.
#[derive(Debug, Clone, PartialEq, Eq)]
pub struct DownloadJob {
    pub url: String,
    pub file_name: String,
    pub md5: String,
}

/// Whether `observed` is `accession` followed by one of the given
/// suffixes.
pub fn __has_expected_filename(accession: &str, observed: &str, extensions: &[&str]) -> (r: bool)
    ensures
        r == (exists|i: int|
            0 <= i < extensions@.len() && observed@ == accession@ + extensions@[i]@),
{
    let n = extensions.len();
    let mut i: usize = 0;
    while i < n
        invariant
            n == extensions@.len(),
            i <= n,
            forall|j: int| 0 <= j < i ==> observed@ != accession@ + extensions@[j]@,
        decreases n - i,
    {
        let expected = str_concat(accession, extensions[i]);
        if str_eq(expected.as_str(), observed) {
            return true;
        }
        i += 1;
    }
    false
}

/// The canonical suffixes a remote read file may carry, after the
/// accession: plain and PacBio-subreads fastq names.
pub fn default_extensions() -> (v: Vec<&'static str>)
    ensures
        v@.len() == 6,
        v@[0]@ == ".fastq.gz"@,
        v@[1]@ == ".fq.gz"@,
        v@[2]@ == "_subreads.fastq.gz"@,
        v@[3]@ == "_subreads.fq.gz"@,
        v@[4]@ == ".subreads.fastq.gz"@,
        v@[5]@ == ".subreads.fq.gz"@,
{
    let mut v: Vec<&'static str> = Vec::new();
    v.push(".fastq.gz");
    v.push(".fq.gz");
    v.push("_subreads.fastq.gz");
    v.push("_subreads.fq.gz");
    v.push(".subreads.fastq.gz");
    v.push(".subreads.fq.gz");
    v
}

/// `observed` is the accession followed by one canonical suffix.
pub open spec fn spec_expected_name(acc: Seq<char>, observed: Seq<char>) -> bool {
    ||| observed == acc + ".fastq.gz"@
    ||| observed == acc + ".fq.gz"@
    ||| observed == acc + "_subreads.fastq.gz"@
    ||| observed == acc + "_subreads.fq.gz"@
    ||| observed == acc + ".subreads.fastq.gz"@
    ||| observed == acc + ".subreads.fq.gz"@
}

/// Whether `observed` is a canonical read-file name for `accession`.
pub fn has_canonical_name(accession: &str, observed: &str) -> (r: bool)
    ensures
        r == spec_expected_name(accession@, observed@),
{
    let exts = default_extensions();
    let r = __has_expected_filename(accession, observed, exts.as_slice());
    proof {
        let ev = exts@;
        if r {
            let i = choose|i: int| 0 <= i < ev.len() && observed@ == accession@ + ev[i]@;
            assert(i == 0 || i == 1 || i == 2 || i == 3 || i == 4 || i == 5);
        } else {
            assert(observed@ != accession@ + ev[0]@);
            assert(observed@ != accession@ + ev[1]@);
            assert(observed@ != accession@ + ev[2]@);
            assert(observed@ != accession@ + ev[3]@);
            assert(observed@ != accession@ + ev[4]@);
            assert(observed@ != accession@ + ev[5]@);
        }
    }
    r
}

/// The naming policy for one remote file. Under a paired library
/// layout, URLs ending in the mate suffixes are accepted outright;
/// every other file must carry a canonical accession-prefixed name.
pub open spec fn spec_pair_name_ok(acc: Seq<char>, url: Seq<char>, lib_paired: bool) -> bool {
    if lib_paired && (spec_ends_with(url, "_1.fastq.gz"@) || spec_ends_with(url, "_2.fastq.gz"@)) {
        true
    } else {
        spec_expected_name(acc, after_last(url, '/'))
    }
}

/// The problem with the remote/checksum pair at position `i`, if any:
/// no file name in the URL, a name outside the policy, or an empty
/// checksum, in that order.
pub open spec fn spec_pair_issue_at(
    acc: Seq<char>,
    url: Seq<char>,
    md5: Seq<char>,
    lib_paired: bool,
    i: int,
) -> Option<InputError> {
    if after_last(url, '/').len() == 0 {
        Some(InputError::NoFileName { index: i as usize })
    } else if !spec_pair_name_ok(acc, url, lib_paired) {
        Some(InputError::UnexpectedFileName { index: i as usize })
    } else if md5.len() == 0 {
        Some(InputError::EmptyChecksum { index: i as usize })
    } else {
        None
    }
}

/// The first pair at or after position `i` with a problem.
pub open spec fn spec_issue_from(
    acc: Seq<char>,
    fparts: Seq<Seq<char>>,
    mparts: Seq<Seq<char>>,
    lib_paired: bool,
    i: int,
) -> Option<InputError>
    decreases fparts.len() - i,
{
    if i < 0 || i >= fparts.len() {
        None
    } else if spec_pair_issue_at(acc, fparts[i], mparts[i], lib_paired, i) is Some {
        spec_pair_issue_at(acc, fparts[i], mparts[i], lib_paired, i)
    } else {
        spec_issue_from(acc, fparts, mparts, lib_paired, i + 1)
    }
}

proof fn lemma_issue_clean_prefix(
    acc: Seq<char>,
    fparts: Seq<Seq<char>>,
    mparts: Seq<Seq<char>>,
    lib_paired: bool,
    i: int,
)
    requires
        0 <= i <= fparts.len(),
        forall|j: int|
            0 <= j < i ==> spec_pair_issue_at(acc, fparts[j], mparts[j], lib_paired, j) is None,
    ensures
        spec_issue_from(acc, fparts, mparts, lib_paired, 0) == spec_issue_from(
            acc,
            fparts,
            mparts,
            lib_paired,
            i,
        ),
    decreases i,
{
    if i > 0 {
        lemma_issue_clean_prefix(acc, fparts, mparts, lib_paired, i - 1);
    }
}

/// How many remote files the expected layout allows: one for single,
/// two for paired, and under the unconstrained layout whatever the
/// record's own library layout declares.
pub open spec fn spec_expected_count(declared: Layout, lib_paired: bool) -> int {
    match declared {
        Layout::Single => 1,
        Layout::Paired => 2,
        Layout::Global => if lib_paired {
            2
        } else {
            1
        },
    }
}

/// The per-pair stage of planning: the first pair with a problem fails
/// the record; otherwise every pair becomes one (url, file name,
/// checksum) job triple.
pub open spec fn spec_plan_tail(
    acc: Seq<char>,
    fparts: Seq<Seq<char>>,
    mparts: Seq<Seq<char>>,
    lib_paired: bool,
) -> Result<Seq<(Seq<char>, Seq<char>, Seq<char>)>, InputError> {
    match spec_issue_from(acc, fparts, mparts, lib_paired, 0) {
        Some(e) => Err(e),
        None => Ok(
            Seq::new(fparts.len(), |i: int| (fparts[i], after_last(fparts[i], '/'), mparts[i])),
        ),
    }
}

/// The planned transfers for a record, or the first input error found.
/// Job triples are (url, file name, checksum).
pub open spec fn spec_plan(record: Seq<(Seq<char>, Seq<char>)>, declared: Layout) -> Result<
    Seq<(Seq<char>, Seq<char>, Seq<char>)>,
    InputError,
> {
    match spec_lookup(record, "fastq_ftp"@) {
        None => Err(InputError::MissingField(FieldId::FastqFtp)),
        Some(ftp) => match spec_lookup(record, "fastq_md5"@) {
            None => Err(InputError::MissingField(FieldId::FastqMd5)),
            Some(md5) => match spec_lookup(record, "library_layout"@) {
                None => Err(InputError::MissingField(FieldId::LibraryLayout)),
                Some(lay) => match spec_lookup(record, "run_accession"@) {
                    None => Err(InputError::MissingField(FieldId::RunAccession)),
                    Some(acc) => {
                        if lay != "PAIRED"@ && lay != "SINGLE"@ {
                            Err(InputError::InvalidLayoutField)
                        } else {
                            let lib_paired = lay == "PAIRED"@;
                            let fparts = spec_split(ftp, ';');
                            let mparts = spec_split(md5, ';');
                            if fparts.len() != mparts.len() {
                                Err(
                                    InputError::MismatchedPairCounts {
                                        ftp: fparts.len() as usize,
                                        md5: mparts.len() as usize,
                                    },
                                )
                            } else if fparts.len() != spec_expected_count(declared, lib_paired) {
                                Err(
                                    InputError::LayoutCountMismatch {
                                        expected: spec_expected_count(declared, lib_paired) as usize,
                                        found: fparts.len() as usize,
                                    },
                                )
                            } else {
                                spec_plan_tail(acc, fparts, mparts, lib_paired)
                            }
                        }
                    },
                },
            },
        },
    }
}

/// The remote-file and checksum lists of a record, split on the
/// separator, always pair up: planning succeeds only when the two
/// splits have equal length, with one job per pair, and splits of
/// different lengths surface as an input error — never as silent
/// truncation.
pub proof fn lemma_split_pairing(record: Seq<(Seq<char>, Seq<char>)>, declared: Layout)
    ensures
        ({
            let ftp_o = spec_lookup(record, "fastq_ftp"@);
            let md5_o = spec_lookup(record, "fastq_md5"@);
            spec_plan(record, declared) matches Ok(jobs) ==> ftp_o is Some && md5_o is Some
                && spec_split(ftp_o.unwrap(), ';').len() == spec_split(md5_o.unwrap(), ';').len()
                && jobs.len() == spec_split(ftp_o.unwrap(), ';').len()
        }),
        ({
            let ftp_o = spec_lookup(record, "fastq_ftp"@);
            let md5_o = spec_lookup(record, "fastq_md5"@);
            let lay_o = spec_lookup(record, "library_layout"@);
            let acc_o = spec_lookup(record, "run_accession"@);
            (ftp_o is Some && md5_o is Some && lay_o is Some && acc_o is Some && (lay_o.unwrap()
                == "PAIRED"@ || lay_o.unwrap() == "SINGLE"@) && spec_split(ftp_o.unwrap(), ';').len()
                != spec_split(md5_o.unwrap(), ';').len()) ==> spec_plan(record, declared) == Err::<
                Seq<(Seq<char>, Seq<char>, Seq<char>)>,
                InputError,
            >(
                InputError::MismatchedPairCounts {
                    ftp: spec_split(ftp_o.unwrap(), ';').len() as usize,
                    md5: spec_split(md5_o.unwrap(), ';').len() as usize,
                },
            )
        }),
{
}

/// Validates one run record and plans its transfers.
pub fn plan_record_downloads(record: &RunRecord, declared: Layout) -> (r: Result<
    Vec<DownloadJob>,
    InputError,
>)
    ensures
        match r {
            Ok(jobs) => spec_plan(record.view_fields(), declared) matches Ok(sjobs) && jobs@.len()
                == sjobs.len() && (forall|i: int|
                0 <= i < jobs@.len() ==> (#[trigger] jobs@[i]).url@ == sjobs[i].0
                    && jobs@[i].file_name@ == sjobs[i].1 && jobs@[i].md5@ == sjobs[i].2),
            Err(e) => spec_plan(record.view_fields(), declared) matches Err(se) && se == e,
        },
{
    let ftp = match record.get("fastq_ftp") {
        Some(v) => v.clone(),
        None => {
            return Err(InputError::MissingField(FieldId::FastqFtp));
        },
    };
    let md5 = match record.get("fastq_md5") {
        Some(v) => v.clone(),
        None => {
            return Err(InputError::MissingField(FieldId::FastqMd5));
        },
    };
    let lay = match record.get("library_layout") {
        Some(v) => v.clone(),
        None => {
            return Err(InputError::MissingField(FieldId::LibraryLayout));
        },
    };
    let acc = match record.get("run_accession") {
        Some(v) => v.clone(),
        None => {
            return Err(InputError::MissingField(FieldId::RunAccession));
        },
    };
    let lib_paired = if str_eq(lay.as_str(), "PAIRED") {
        true
    } else if str_eq(lay.as_str(), "SINGLE") {
        false
    } else {
        return Err(InputError::InvalidLayoutField);
    };
    let fparts = split_str(ftp.as_str(), ';');
    let mparts = split_str(md5.as_str(), ';');
    if fparts.len() != mparts.len() {
        return Err(InputError::MismatchedPairCounts { ftp: fparts.len(), md5: mparts.len() });
    }
    let expected: usize = match declared {
        Layout::Single => 1,
        Layout::Paired => 2,
        Layout::Global => if lib_paired {
            2
        } else {
            1
        },
    };
    if fparts.len() != expected {
        return Err(InputError::LayoutCountMismatch { expected, found: fparts.len() });
    }
    let ghost sf = spec_split(ftp@, ';');
    let ghost sm = spec_split(md5@, ';');
    let mut jobs: Vec<DownloadJob> = Vec::new();
    let mut i: usize = 0;
    while i < fparts.len()
        invariant
            spec_plan(record.view_fields(), declared) == spec_plan_tail(acc@, sf, sm, lib_paired),
            fparts@.len() == sf.len(),
            mparts@.len() == sm.len(),
            sf.len() == sm.len(),
            forall|j: int| 0 <= j < sf.len() ==> fparts@[j]@ == sf[j],
            forall|j: int| 0 <= j < sm.len() ==> mparts@[j]@ == sm[j],
            i <= sf.len(),
            forall|j: int| 0 <= j < i ==> spec_pair_issue_at(acc@, sf[j], sm[j], lib_paired, j) is None,
            jobs@.len() == i,
            forall|j: int|
                0 <= j < i ==> (#[trigger] jobs@[j]).url@ == sf[j] && jobs@[j].file_name@
                    == after_last(sf[j], '/') && jobs@[j].md5@ == sm[j],
        decreases fparts@.len() - i,
    {
        let url = fparts[i].clone();
        let name = match file_name_of(url.as_str()) {
            Some(n) => n,
            None => {
                proof {
                    lemma_issue_clean_prefix(acc@, sf, sm, lib_paired, i as int);
                }
                return Err(InputError::NoFileName { index: i });
            },
        };
        let accepted = if lib_paired && (str_ends_with(url.as_str(), "_1.fastq.gz")
            || str_ends_with(url.as_str(), "_2.fastq.gz")) {
            true
        } else {
            has_canonical_name(acc.as_str(), name.as_str())
        };
        if !accepted {
            proof {
                lemma_issue_clean_prefix(acc@, sf, sm, lib_paired, i as int);
            }
            return Err(InputError::UnexpectedFileName { index: i });
        }
        if mparts[i].as_str().unicode_len() == 0 {
            proof {
                lemma_issue_clean_prefix(acc@, sf, sm, lib_paired, i as int);
            }
            return Err(InputError::EmptyChecksum { index: i });
        }
        let checksum = mparts[i].clone();
        jobs.push(DownloadJob { url, file_name: name, md5: checksum });
        i += 1;
    }
    proof {
        lemma_issue_clean_prefix(acc@, sf, sm, lib_paired, i as int);
    }
    Ok(jobs)
}

} // verus!
