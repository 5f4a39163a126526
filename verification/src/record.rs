//! Run records: the metadata rows describing sequencing runs, parsed
//! from the provider's tab-separated text.
//!
//! A response body is parsed as a header line followed by data lines;
//! every non-empty data line becomes one record. A field whose value is
//! empty is omitted from the record, never stored as an empty string.

use vstd::prelude::*;
use vstd::string::StrSliceExecFns;

use crate::text::{spec_split, spec_strip_cr, split_str, str_eq, strip_cr};

verus! {

/// One sequencing-run record: field name to non-empty value.
#[derive(Debug, Clone)]
pub struct RunRecord {
    pub fields: Vec<(String, String)>,
}

/// First value stored under `key`, if any.
pub open spec fn spec_lookup(fields: Seq<(Seq<char>, Seq<char>)>, key: Seq<char>) -> Option<
    Seq<char>,
>
    decreases fields.len(),
{
    if fields.len() == 0 {
        None
    } else if fields[0].0 == key {
        Some(fields[0].1)
    } else {
        spec_lookup(fields.skip(1), key)
    }
}

proof fn lemma_lookup_skip(fields: Seq<(Seq<char>, Seq<char>)>, key: Seq<char>, i: int)
    requires
        0 <= i <= fields.len(),
        forall|j: int| 0 <= j < i ==> fields[j].0 != key,
    ensures
        spec_lookup(fields, key) == spec_lookup(fields.skip(i), key),
    decreases i,
{
    if i > 0 {
        lemma_lookup_skip(fields.skip(1), key, i - 1);
        assert(fields.skip(1).skip(i - 1) =~= fields.skip(i));
    } else {
        assert(fields.skip(0) =~= fields);
    }
}

impl RunRecord {
    /// The record as a sequence of (name, value) character pairs.
    pub open spec fn view_fields(self) -> Seq<(Seq<char>, Seq<char>)> {
        self.fields@.map_values(|p: (String, String)| (p.0@, p.1@))
    }

    /// Every stored value is non-empty.
    pub open spec fn wf(self) -> bool {
        forall|i: int| 0 <= i < self.view_fields().len() ==> (#[trigger] self.view_fields()[i]).1.len()
            > 0
    }

    pub open spec fn spec_get(self, key: Seq<char>) -> Option<Seq<char>> {
        spec_lookup(self.view_fields(), key)
    }

    /// Looks a field up by name.
    pub fn get<'a>(&'a self, key: &str) -> (r: Option<&'a String>)
        ensures
            match r {
                Some(v) => self.spec_get(key@) == Some(v@),
                None => self.spec_get(key@) is None,
            },
    {
        let mut i: usize = 0;
        while i < self.fields.len()
            invariant
                i <= self.fields@.len(),
                forall|j: int| 0 <= j < i ==> (#[trigger] self.view_fields()[j]).0 != key@,
            decreases self.fields@.len() - i,
        {
            assert(self.view_fields()[i as int].0 == self.fields@[i as int].0@);
            if str_eq(self.fields[i].0.as_str(), key) {
                proof {
                    lemma_lookup_skip(self.view_fields(), key@, i as int);
                }
                return Some(&self.fields[i].1);
            }
            i += 1;
        }
        proof {
            lemma_lookup_skip(self.view_fields(), key@, i as int);
            assert(self.view_fields().skip(i as int) =~= Seq::empty());
        }
        None
    }

    /// The number of stored fields.
    pub fn len(&self) -> (n: usize)
        ensures
            n == self.view_fields().len(),
    {
        self.fields.len()
    }
}

/// Header names and row values paired positionally, up to the shorter
/// of the two, keeping only pairs whose value is non-empty.
pub open spec fn spec_record_of(headers: Seq<Seq<char>>, vals: Seq<Seq<char>>) -> Seq<
    (Seq<char>, Seq<char>),
>
    decreases headers.len(),
{
    if headers.len() == 0 || vals.len() == 0 {
        Seq::empty()
    } else {
        let rest = spec_record_of(headers.skip(1), vals.skip(1));
        if vals[0].len() > 0 {
            seq![(headers[0], vals[0])] + rest
        } else {
            rest
        }
    }
}

/// Builds one record from split header names and split row values.
fn record_of(headers: &Vec<String>, vals: &Vec<String>) -> (r: RunRecord)
    ensures
        r.view_fields() == spec_record_of(
            crate::text::views_of(headers@),
            crate::text::views_of(vals@),
        ),
        r.wf(),
{
    let ghost hs = crate::text::views_of(headers@);
    let ghost vs = crate::text::views_of(vals@);
    let mut fields: Vec<(String, String)> = Vec::new();
    let n = if headers.len() < vals.len() {
        headers.len()
    } else {
        vals.len()
    };
    let mut i: usize = 0;
    proof {
        assert(hs.skip(0) =~= hs);
        assert(vs.skip(0) =~= vs);
        assert(fields@.map_values(|p: (String, String)| (p.0@, p.1@)) + spec_record_of(hs, vs)
            =~= spec_record_of(hs, vs));
    }
    while i < n
        invariant
            n <= headers@.len(),
            n <= vals@.len(),
            n == if headers@.len() < vals@.len() {
                headers@.len()
            } else {
                vals@.len()
            },
            i <= n,
            hs == crate::text::views_of(headers@),
            vs == crate::text::views_of(vals@),
            hs.len() == headers@.len(),
            vs.len() == vals@.len(),
            forall|j: int| 0 <= j < hs.len() ==> hs[j] == headers@[j]@,
            forall|j: int| 0 <= j < vs.len() ==> vs[j] == vals@[j]@,
            spec_record_of(hs, vs) == fields@.map_values(|p: (String, String)| (p.0@, p.1@))
                + spec_record_of(hs.skip(i as int), vs.skip(i as int)),
            forall|j: int| 0 <= j < fields@.len() ==> (#[trigger] fields@[j]).1@.len() > 0,
        decreases n - i,
    {
        let ghost hrest = hs.skip(i as int);
        let ghost vrest = vs.skip(i as int);
        proof {
            assert(hrest[0] == hs[i as int]);
            assert(vrest[0] == vs[i as int]);
            assert(hrest.skip(1) =~= hs.skip(i as int + 1));
            assert(vrest.skip(1) =~= vs.skip(i as int + 1));
        }
        if vals[i].as_str().unicode_len() > 0 {
            let pair = (headers[i].clone(), vals[i].clone());
            proof {
                let f2 = fields@.push(pair);
                assert(f2.map_values(|p: (String, String)| (p.0@, p.1@)) =~= fields@.map_values(
                    |p: (String, String)| (p.0@, p.1@),
                ).push((pair.0@, pair.1@)));
                assert(fields@.map_values(|p: (String, String)| (p.0@, p.1@)).push(
                    (hs[i as int], vs[i as int]),
                ) + spec_record_of(hs.skip(i as int + 1), vs.skip(i as int + 1))
                    =~= fields@.map_values(|p: (String, String)| (p.0@, p.1@)) + (seq![
                    (hs[i as int], vs[i as int]),
                ] + spec_record_of(hs.skip(i as int + 1), vs.skip(i as int + 1))));
            }
            fields.push(pair);
        }
        i += 1;
    }
    proof {
        if i < hs.len() && i < vs.len() {
            assert(false);
        }
        assert(spec_record_of(hs.skip(i as int), vs.skip(i as int)) =~= Seq::<
            (Seq<char>, Seq<char>),
        >::empty());
        assert(fields@.map_values(|p: (String, String)| (p.0@, p.1@)) + Seq::<
            (Seq<char>, Seq<char>),
        >::empty() =~= fields@.map_values(|p: (String, String)| (p.0@, p.1@)));
    }
    RunRecord { fields }
}

/// The lines of a response body: split on newlines, each line freed of
/// one trailing carriage return.
pub open spec fn spec_lines(body: Seq<char>) -> Seq<Seq<char>> {
    spec_split(body, '\n').map_values(|l: Seq<char>| spec_strip_cr(l))
}

/// The records parsed from the data lines given, under the header names
/// given: one record per non-empty line.
pub open spec fn spec_records_from(lines: Seq<Seq<char>>, headers: Seq<Seq<char>>) -> Seq<
    Seq<(Seq<char>, Seq<char>)>,
>
    decreases lines.len(),
{
    if lines.len() == 0 {
        Seq::empty()
    } else {
        let rest = spec_records_from(lines.skip(1), headers);
        if lines[0].len() > 0 {
            seq![spec_record_of(headers, spec_split(lines[0], '\t'))] + rest
        } else {
            rest
        }
    }
}

/// The records of a whole response body: the first line names the
/// fields, every later non-empty line is one run.
pub open spec fn spec_parse_records(body: Seq<char>) -> Seq<Seq<(Seq<char>, Seq<char>)>> {
    let ls = spec_lines(body);
    spec_records_from(ls.skip(1), spec_split(ls[0], '\t'))
}

/// Parses a tab-separated response body into run records.
pub fn parse_records(body: &str) -> (records: Vec<RunRecord>)
    ensures
        records@.len() == spec_parse_records(body@).len(),
        forall|i: int| 0 <= i < records@.len() ==> (#[trigger] records@[i]).view_fields()
            == spec_parse_records(body@)[i],
        forall|i: int| 0 <= i < records@.len() ==> (#[trigger] records@[i]).wf(),
{
    let ghost ls = spec_lines(body@);
    let raw_lines = split_str(body, '\n');
    let mut lines: Vec<String> = Vec::new();
    let mut i: usize = 0;
    while i < raw_lines.len()
        invariant
            i <= raw_lines@.len(),
            raw_lines@.len() == spec_split(body@, '\n').len(),
            forall|j: int| 0 <= j < raw_lines@.len() ==> raw_lines@[j]@ == spec_split(body@, '\n')[j],
            ls == spec_lines(body@),
            ls.len() == raw_lines@.len(),
            lines@.len() == i,
            forall|j: int| 0 <= j < i ==> lines@[j]@ == ls[j],
        decreases raw_lines@.len() - i,
    {
        lines.push(strip_cr(raw_lines[i].as_str()));
        i += 1;
    }
    let headers = split_str(lines[0].as_str(), '\t');
    let ghost hs = spec_split(ls[0], '\t');
    proof {
        assert(crate::text::views_of(headers@) =~= hs);
    }
    let mut records: Vec<RunRecord> = Vec::new();
    let mut k: usize = 1;
    proof {
        assert(ls.skip(1).skip(0) =~= ls.skip(1));
        assert(records@.map_values(|r: RunRecord| r.view_fields()) + spec_records_from(
            ls.skip(1),
            hs,
        ) =~= spec_records_from(ls.skip(1), hs));
    }
    while k < lines.len()
        invariant
            1 <= k <= lines@.len(),
            lines@.len() == ls.len(),
            forall|j: int| 0 <= j < ls.len() ==> lines@[j]@ == ls[j],
            hs == spec_split(ls[0], '\t'),
            crate::text::views_of(headers@) == hs,
            forall|j: int| 0 <= j < headers@.len() ==> headers@[j]@ == hs[j],
            headers@.len() == hs.len(),
            spec_records_from(ls.skip(1), hs) == records@.map_values(|r: RunRecord| r.view_fields())
                + spec_records_from(ls.skip(k as int), hs),
            forall|j: int| 0 <= j < records@.len() ==> (#[trigger] records@[j]).wf(),
        decreases lines@.len() - k,
    {
        let ghost lrest = ls.skip(k as int);
        proof {
            assert(lrest[0] == ls[k as int]);
            assert(lrest.skip(1) =~= ls.skip(k as int + 1));
        }
        if lines[k].as_str().unicode_len() > 0 {
            let vals = split_str(lines[k].as_str(), '\t');
            proof {
                assert(crate::text::views_of(vals@) =~= spec_split(ls[k as int], '\t'));
            }
            let rec = record_of(&headers, &vals);
            proof {
                let rv = records@.map_values(|r: RunRecord| r.view_fields());
                assert(records@.push(rec).map_values(|r: RunRecord| r.view_fields()) =~= rv.push(
                    rec.view_fields(),
                ));
                assert(rv.push(spec_record_of(hs, spec_split(ls[k as int], '\t')))
                    + spec_records_from(ls.skip(k as int + 1), hs) =~= rv + (seq![
                    spec_record_of(hs, spec_split(ls[k as int], '\t')),
                ] + spec_records_from(ls.skip(k as int + 1), hs)));
            }
            records.push(rec);
        }
        k += 1;
    }
    proof {
        assert(ls.skip(k as int) =~= Seq::<Seq<char>>::empty());
        let rv = records@.map_values(|r: RunRecord| r.view_fields());
        assert(rv + spec_records_from(Seq::empty(), hs) =~= rv);
        assert forall|i2: int| 0 <= i2 < records@.len() implies (#[trigger] records@[i2]).view_fields()
            == spec_parse_records(body@)[i2] by {
            assert(rv[i2] == records@[i2].view_fields());
        }
    }
    records
}

} // verus!
