//! Expected output layouts for a sequencing run and the canonical
//! output file names derived from a run accession.

use vstd::prelude::*;

use crate::text::{str_concat, views_of};

verus! {

/// Declared expectation for the number of read files a run produces:
/// exactly one (single-end), exactly two (paired-end mates), or either.
#[derive(Debug, Clone, Copy, PartialEq, Eq, Structural)]
pub enum Layout {
    Single,
    Paired,
    Global,
}

/// Whether a set of present canonical outputs satisfies a layout.
///
/// `has_single` reports whether the single-end file exists,
/// `has_r1` / `has_r2` whether the two mate files exist.
pub fn layout_satisfied(layout: Layout, has_single: bool, has_r1: bool, has_r2: bool) -> (ok: bool)
    ensures
        ok == spec_layout_satisfied(layout, has_single, has_r1, has_r2),
{
    match layout {
        Layout::Single => has_single,
        Layout::Paired => has_r1 && has_r2,
        Layout::Global => has_single || (has_r1 && has_r2),
    }
}

pub open spec fn spec_layout_satisfied(
    layout: Layout,
    has_single: bool,
    has_r1: bool,
    has_r2: bool,
) -> bool {
    match layout {
        Layout::Single => has_single,
        Layout::Paired => has_r1 && has_r2,
        Layout::Global => has_single || (has_r1 && has_r2),
    }
}

impl Layout {
    /// Parses the command-line spelling of a layout.
    pub fn parse(s: &str) -> (r: Option<Layout>)
        ensures
            s@ == "single"@ ==> r == Some(Layout::Single),
            s@ == "paired"@ ==> r == Some(Layout::Paired),
            s@ == "global"@ ==> r == Some(Layout::Global),
            s@ != "single"@ && s@ != "paired"@ && s@ != "global"@ ==> r is None,
    {
        proof {
            reveal_strlit("single");
            reveal_strlit("paired");
            reveal_strlit("global");
            assert("single"@[0] != "paired"@[0]);
            assert("single"@[0] != "global"@[0]);
            assert("paired"@[0] != "global"@[0]);
        }
        if crate::text::str_eq(s, "single") {
            Some(Layout::Single)
        } else if crate::text::str_eq(s, "paired") {
            Some(Layout::Paired)
        } else if crate::text::str_eq(s, "global") {
            Some(Layout::Global)
        } else {
            None
        }
    }

    /// How many files this layout expects, when it constrains the count.
    pub fn expected_count(&self) -> (r: Option<usize>)
        ensures
            *self == Layout::Single ==> r == Some(1usize),
            *self == Layout::Paired ==> r == Some(2usize),
            *self == Layout::Global ==> r is None,
    {
        match self {
            Layout::Single => Some(1),
            Layout::Paired => Some(2),
            Layout::Global => None,
        }
    }

    /// The command-line spelling of a layout.
    pub fn name(&self) -> (r: String)
        ensures
            *self == Layout::Single ==> r@ == "single"@,
            *self == Layout::Paired ==> r@ == "paired"@,
            *self == Layout::Global ==> r@ == "global"@,
    {
        match self {
            Layout::Single => String::from_str("single"),
            Layout::Paired => String::from_str("paired"),
            Layout::Global => String::from_str("global"),
        }
    }
}

/// The three canonical compressed output names for a run: the
/// single-end file and the two mate files, in that order.
pub fn gz_candidates(accession: &str) -> (v: Vec<String>)
    ensures
        v@.len() == 3,
        v@[0]@ == accession@ + ".fastq.gz"@,
        v@[1]@ == accession@ + "_1.fastq.gz"@,
        v@[2]@ == accession@ + "_2.fastq.gz"@,
{
    let mut v: Vec<String> = Vec::new();
    v.push(str_concat(accession, ".fastq.gz"));
    v.push(str_concat(accession, "_1.fastq.gz"));
    v.push(str_concat(accession, "_2.fastq.gz"));
    v
}

/// The three canonical uncompressed names extraction may produce,
/// in the same order as `gz_candidates`.
pub fn raw_candidates(accession: &str) -> (v: Vec<String>)
    ensures
        v@.len() == 3,
        v@[0]@ == accession@ + ".fastq"@,
        v@[1]@ == accession@ + "_1.fastq"@,
        v@[2]@ == accession@ + "_2.fastq"@,
{
    let mut v: Vec<String> = Vec::new();
    v.push(str_concat(accession, ".fastq"));
    v.push(str_concat(accession, "_1.fastq"));
    v.push(str_concat(accession, "_2.fastq"));
    v
}

/// The paths at positions `i` and later whose presence flag is set,
/// in order.
pub open spec fn spec_kept(paths: Seq<String>, present: Seq<bool>, i: int) -> Seq<Seq<char>>
    decreases paths.len() - i,
{
    if i < 0 || i >= paths.len() {
        Seq::empty()
    } else if present[i] {
        seq![paths[i]@] + spec_kept(paths, present, i + 1)
    } else {
        spec_kept(paths, present, i + 1)
    }
}

/// The candidate paths that are actually present, in candidate order.
pub fn existing_paths(paths: &Vec<String>, present: &Vec<bool>) -> (v: Vec<String>)
    requires
        paths@.len() == present@.len(),
    ensures
        views_of(v@) == spec_kept(paths@, present@, 0),
{
    let mut v: Vec<String> = Vec::new();
    let mut i: usize = 0;
    proof {
        assert(views_of(v@) + spec_kept(paths@, present@, 0) =~= spec_kept(paths@, present@, 0));
    }
    while i < paths.len()
        invariant
            paths@.len() == present@.len(),
            i <= paths@.len(),
            spec_kept(paths@, present@, 0) == views_of(v@) + spec_kept(paths@, present@, i as int),
        decreases paths@.len() - i,
    {
        if present[i] {
            let p = paths[i].clone();
            proof {
                assert(views_of(v@.push(p)) =~= views_of(v@).push(p@));
                assert(views_of(v@).push(paths@[i as int]@) + spec_kept(
                    paths@,
                    present@,
                    i as int + 1,
                ) =~= views_of(v@) + (seq![paths@[i as int]@] + spec_kept(
                    paths@,
                    present@,
                    i as int + 1,
                )));
            }
            v.push(p);
        }
        i += 1;
    }
    proof {
        assert(views_of(v@) + spec_kept(paths@, present@, i as int) =~= views_of(v@));
    }
    v
}

} // verus!
