//! Accession classification: maps a raw accession string to the typed
//! metadata query it stands for.
//!
//! Four fixed patterns are recognised, mutually exclusive by
//! construction: project/study, sample/biosample, experiment, and run.
//! A string matching none of them is a fatal input error.

use vstd::prelude::*;
use vstd::string::StrSliceExecFns;

use crate::errors::InputError;
use crate::text::{spec_split, spec_trim, split_str, str_concat, trim_str};

verus! {

/// ASCII decimal digit.
pub open spec fn is_digit(c: char) -> bool {
    48 <= c as u32 <= 57
}

/// Uppercase ASCII letter.
pub open spec fn is_alpha_upper(c: char) -> bool {
    65 <= c as u32 <= 90
}

/// One of the archive prefixes `E`, `D`, `S`.
pub open spec fn is_archive_letter(c: char) -> bool {
    c == 'E' || c == 'D' || c == 'S'
}

/// One of the registry letters `E`, `D`, `N`.
pub open spec fn is_registry_letter(c: char) -> bool {
    c == 'E' || c == 'D' || c == 'N'
}

/// All characters from `from` to the end are digits.
pub open spec fn digits_from(s: Seq<char>, from: int) -> bool {
    forall|i: int| from <= i < s.len() ==> is_digit(s[i])
}

/// A project accession: `PRJ`, a registry letter, an uppercase letter,
/// then one or more digits.
pub open spec fn spec_project_prj(s: Seq<char>) -> bool {
    s.len() >= 6 && s[0] == 'P' && s[1] == 'R' && s[2] == 'J' && is_registry_letter(s[3])
        && is_alpha_upper(s[4]) && digits_from(s, 5)
}

/// A study accession: an archive letter, `RP`, then six or more digits.
pub open spec fn spec_study_srp(s: Seq<char>) -> bool {
    s.len() >= 9 && is_archive_letter(s[0]) && s[1] == 'R' && s[2] == 'P' && digits_from(s, 3)
}

/// A project or study accession.
pub open spec fn spec_project_study(s: Seq<char>) -> bool {
    spec_project_prj(s) || spec_study_srp(s)
}

/// A biosample accession: `SAM`, a registry letter, an optional
/// uppercase letter, then one or more digits.
pub open spec fn spec_sample_sam(s: Seq<char>) -> bool {
    s.len() >= 5 && s[0] == 'S' && s[1] == 'A' && s[2] == 'M' && is_registry_letter(s[3]) && (
    digits_from(s, 4) || (s.len() >= 6 && is_alpha_upper(s[4]) && digits_from(s, 5)))
}

/// A sample accession: an archive letter, `RS`, then six or more digits.
pub open spec fn spec_sample_srs(s: Seq<char>) -> bool {
    s.len() >= 9 && is_archive_letter(s[0]) && s[1] == 'R' && s[2] == 'S' && digits_from(s, 3)
}

/// A sample or biosample accession.
pub open spec fn spec_sample_biosample(s: Seq<char>) -> bool {
    spec_sample_sam(s) || spec_sample_srs(s)
}

/// An experiment accession: an archive letter, `RX`, then six or more digits.
pub open spec fn spec_experiment(s: Seq<char>) -> bool {
    s.len() >= 9 && is_archive_letter(s[0]) && s[1] == 'R' && s[2] == 'X' && digits_from(s, 3)
}

/// A run accession: an archive letter, `RR`, then six or more digits.
pub open spec fn spec_run(s: Seq<char>) -> bool {
    s.len() >= 9 && is_archive_letter(s[0]) && s[1] == 'R' && s[2] == 'R' && digits_from(s, 3)
}

/// The four accession categories.
#[derive(Debug, Clone, Copy, PartialEq, Eq, Structural)]
pub enum AccessionClass {
    ProjectStudy,
    SampleBiosample,
    Experiment,
    Run,
}

/// The category of an accession: the first pattern that matches, in the
/// fixed order project/study, sample/biosample, experiment, run.
pub open spec fn spec_classify(s: Seq<char>) -> Option<AccessionClass> {
    if spec_project_study(s) {
        Some(AccessionClass::ProjectStudy)
    } else if spec_sample_biosample(s) {
        Some(AccessionClass::SampleBiosample)
    } else if spec_experiment(s) {
        Some(AccessionClass::Experiment)
    } else if spec_run(s) {
        Some(AccessionClass::Run)
    } else {
        None
    }
}

/// The four patterns never overlap: an accession belongs to at most one
/// category, so the match order cannot change the result.
pub proof fn lemma_patterns_mutually_exclusive(s: Seq<char>)
    ensures
        !(spec_project_study(s) && spec_sample_biosample(s)),
        !(spec_project_study(s) && spec_experiment(s)),
        !(spec_project_study(s) && spec_run(s)),
        !(spec_sample_biosample(s) && spec_experiment(s)),
        !(spec_sample_biosample(s) && spec_run(s)),
        !(spec_experiment(s) && spec_run(s)),
{
}

fn all_digits_from(s: &str, from: usize) -> (r: bool)
    requires
        from <= s@.len(),
    ensures
        r == digits_from(s@, from as int),
{
    let n = s.unicode_len();
    let mut i = from;
    while i < n
        invariant
            from <= i <= n,
            n == s@.len(),
            forall|j: int| from <= j < i ==> is_digit(s@[j]),
        decreases n - i,
    {
        let c = s.get_char(i);
        if !(c as u32 >= 48 && c as u32 <= 57) {
            return false;
        }
        i += 1;
    }
    true
}

fn is_archive_letter_char(c: char) -> (r: bool)
    ensures
        r == is_archive_letter(c),
{
    c == 'E' || c == 'D' || c == 'S'
}

fn is_registry_letter_char(c: char) -> (r: bool)
    ensures
        r == is_registry_letter(c),
{
    c == 'E' || c == 'D' || c == 'N'
}

/// Matches an archive-letter pattern `[EDS]R<tag>` followed by six or
/// more digits, for the tag character given.
fn matches_archive_pattern(s: &str, tag: char) -> (r: bool)
    ensures
        r == (s@.len() >= 9 && is_archive_letter(s@[0]) && s@[1] == 'R' && s@[2] == tag
            && digits_from(s@, 3)),
{
    let n = s.unicode_len();
    if n < 9 {
        return false;
    }
    is_archive_letter_char(s.get_char(0)) && s.get_char(1) == 'R' && s.get_char(2) == tag
        && all_digits_from(s, 3)
}

fn matches_project_prj(s: &str) -> (r: bool)
    ensures
        r == spec_project_prj(s@),
{
    let n = s.unicode_len();
    if n < 6 {
        return false;
    }
    s.get_char(0) == 'P' && s.get_char(1) == 'R' && s.get_char(2) == 'J' && is_registry_letter_char(
        s.get_char(3),
    ) && {
        let c4 = s.get_char(4);
        c4 as u32 >= 65 && c4 as u32 <= 90
    } && all_digits_from(s, 5)
}

fn matches_sample_sam(s: &str) -> (r: bool)
    ensures
        r == spec_sample_sam(s@),
{
    let n = s.unicode_len();
    if n < 5 {
        return false;
    }
    if !(s.get_char(0) == 'S' && s.get_char(1) == 'A' && s.get_char(2) == 'M'
        && is_registry_letter_char(s.get_char(3))) {
        return false;
    }
    if all_digits_from(s, 4) {
        return true;
    }
    let c4 = s.get_char(4);
    n >= 6 && c4 as u32 >= 65 && c4 as u32 <= 90 && all_digits_from(s, 5)
}

/// Classifies an accession into its category, or `None` when it matches
/// no recognised pattern.
pub fn classify(s: &str) -> (r: Option<AccessionClass>)
    ensures
        r == spec_classify(s@),
{
    if matches_project_prj(s) || matches_archive_pattern(s, 'P') {
        Some(AccessionClass::ProjectStudy)
    } else if matches_sample_sam(s) || matches_archive_pattern(s, 'S') {
        Some(AccessionClass::SampleBiosample)
    } else if matches_archive_pattern(s, 'X') {
        Some(AccessionClass::Experiment)
    } else if matches_archive_pattern(s, 'R') {
        Some(AccessionClass::Run)
    } else {
        None
    }
}

/// The metadata filter for a classified accession.
///
/// Study and sample accessions query both their primary and secondary
/// fields; experiment and run accessions query one field.
pub open spec fn spec_query_for(class: AccessionClass, acc: Seq<char>) -> Seq<char> {
    match class {
        AccessionClass::ProjectStudy => "(study_accession="@ + acc
            + " OR secondary_study_accession="@ + acc + ")"@,
        AccessionClass::SampleBiosample => "(sample_accession="@ + acc
            + " OR secondary_sample_accession="@ + acc + ")"@,
        AccessionClass::Experiment => "experiment_accession="@ + acc,
        AccessionClass::Run => "run_accession="@ + acc,
    }
}

/// Classifies `accession` and builds the corresponding metadata query;
/// an unclassifiable accession is a fatal input error.
pub fn validate_query(accession: &str) -> (r: Result<String, InputError>)
    ensures
        match spec_classify(accession@) {
            Some(class) => r matches Ok(q) && q@ == spec_query_for(class, accession@),
            None => r matches Err(e) && e == InputError::InvalidAccession,
        },
{
    match classify(accession) {
        Some(AccessionClass::ProjectStudy) => {
            let mut q = String::from_str("(study_accession=");
            q.append(accession);
            q.append(" OR secondary_study_accession=");
            q.append(accession);
            q.append(")");
            Ok(q)
        },
        Some(AccessionClass::SampleBiosample) => {
            let mut q = String::from_str("(sample_accession=");
            q.append(accession);
            q.append(" OR secondary_sample_accession=");
            q.append(accession);
            q.append(")");
            Ok(q)
        },
        Some(AccessionClass::Experiment) => Ok(str_concat("experiment_accession=", accession)),
        Some(AccessionClass::Run) => Ok(str_concat("run_accession=", accession)),
        None => Err(InputError::InvalidAccession),
    }
}

/// A single accession, or a list of them to process as a batch.
#[derive(Debug, Clone)]
pub enum AccessionType {
    Single(String),
    List(Vec<String>),
}

/// Parses a comma-separated accession argument: one entry stays single,
/// several become a list with each entry trimmed.
pub fn parse_accession_arg(s: &str) -> (r: AccessionType)
    ensures
        spec_split(s@, ',').len() <= 1 ==> (r matches AccessionType::Single(a) && a@ == s@),
        spec_split(s@, ',').len() > 1 ==> (r matches AccessionType::List(v) && v@.len()
            == spec_split(s@, ',').len() && forall|i: int|
            0 <= i < v@.len() ==> v@[i]@ == spec_trim(spec_split(s@, ',')[i])),
{
    let parts = split_str(s, ',');
    if parts.len() > 1 {
        let mut out: Vec<String> = Vec::new();
        let mut i: usize = 0;
        while i < parts.len()
            invariant
                i <= parts@.len(),
                out@.len() == i,
                forall|j: int| 0 <= j < i ==> out@[j]@ == spec_trim(parts@[j]@),
            decreases parts@.len() - i,
        {
            out.push(trim_str(parts[i].as_str()));
            i += 1;
        }
        AccessionType::List(out)
    } else {
        AccessionType::Single(s.to_owned())
    }
}

/// Parses the contents of an accession list file: one accession per
/// line, each trimmed.
pub fn parse_accession_lines(content: &str) -> (r: Vec<String>)
    ensures
        r@.len() == spec_split(content@, '\n').len(),
        forall|i: int| 0 <= i < r@.len() ==> r@[i]@ == spec_trim(spec_split(content@, '\n')[i]),
{
    let parts = split_str(content, '\n');
    let mut out: Vec<String> = Vec::new();
    let mut i: usize = 0;
    while i < parts.len()
        invariant
            i <= parts@.len(),
            parts@.len() == spec_split(content@, '\n').len(),
            forall|j: int| 0 <= j < parts@.len() ==> parts@[j]@ == spec_split(content@, '\n')[j],
            out@.len() == i,
            forall|j: int| 0 <= j < i ==> out@[j]@ == spec_trim(spec_split(content@, '\n')[j]),
        decreases parts@.len() - i,
    {
        out.push(trim_str(parts[i].as_str()));
        i += 1;
    }
    out
}

} // verus!
