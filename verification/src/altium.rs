//! The Altium CSV backend.
//!
//! One header row, then one data row per component record, each ended with
//! CR-LF.  A row holds the thirteen columns of the header, taking supplier
//! data from the record's first manufacturer part; a record with no
//! manufacturer part is skipped silently, as a row without a supplier
//! would be unusable in a database library.  The description column is
//! quoted: it contains commas.

use vstd::prelude::*;
use vstd::string::*;
use crate::record::{ComponentRecord, RecordModel, record_models};

verus! {

/// The fixed header row, CR-LF ended.
pub open spec fn spec_altium_header() -> Seq<char> {
    "Part,Description,Value,Case,Power,Supplier 1,Supplier Part Number 1,Library Path,Library Ref,Footprint Path,Footprint Ref,Company,Comment\r\n"@
}

/// The fixed header row of an Altium CSV import.
pub fn altium_header() -> (r: &'static str)
    ensures
        r@ == spec_altium_header(),
{
    "Part,Description,Value,Case,Power,Supplier 1,Supplier Part Number 1,Library Path,Library Ref,Footprint Path,Footprint Ref,Company,Comment\r\n"
}

/// The data row of one record, using its first manufacturer part.
pub open spec fn spec_altium_row(m: RecordModel) -> Seq<char> {
    m.part_number + ",\""@ + m.description + "\","@ + m.formatted + ","@ + m.package + ","@
        + m.power + ","@ + m.manufacturers[0].distributor + ","@
        + m.manufacturers[0].distributor_pn + ",Atlantix_R.SchLib,Res1,Atlantix_R.PcbLib,RES"@
        + m.package + ",Atlantix EDA,=Description\r\n"@
}

/// Renders the data row of one record.
pub fn altium_row(rec: &ComponentRecord) -> (r: String)
    requires
        rec@.manufacturers.len() > 0,
    ensures
        r@ == spec_altium_row(rec@),
{
    let mut out = String::new();
    out.append(rec.part_number.as_str());
    out.append(",\"");
    out.append(rec.description.as_str());
    out.append("\",");
    out.append(rec.formatted.as_str());
    out.append(",");
    out.append(rec.package.as_str());
    out.append(",");
    out.append(rec.power.as_str());
    out.append(",");
    let first = &rec.manufacturers[0];
    out.append(first.distributor.as_str());
    out.append(",");
    out.append(first.distributor_pn.as_str());
    out.append(",Atlantix_R.SchLib,Res1,Atlantix_R.PcbLib,RES");
    out.append(rec.package.as_str());
    out.append(",Atlantix EDA,=Description\r\n");
    proof {
        assert(out@ =~= spec_altium_row(rec@));
    }
    out
}

/// The data rows of a record sequence, in order, skipping records with
/// no manufacturer part.
pub open spec fn spec_altium_rows(rs: Seq<RecordModel>) -> Seq<Seq<char>>
    decreases rs.len(),
{
    if rs.len() == 0 {
        Seq::empty()
    } else {
        spec_altium_rows(rs.drop_last()) + (if rs.last().manufacturers.len() > 0 {
            seq![spec_altium_row(rs.last())]
        } else {
            Seq::empty()
        })
    }
}

/// The character sequences of a sequence of strings.
pub open spec fn string_models(s: Seq<String>) -> Seq<Seq<char>> {
    s.map_values(|x: String| x@)
}

/// Renders the data rows of all records, skipping records with no
/// manufacturer part.
pub fn altium_rows(records: &Vec<ComponentRecord>) -> (r: Vec<String>)
    ensures
        string_models(r@) == spec_altium_rows(record_models(records@)),
{
    let ghost models = record_models(records@);
    let mut out: Vec<String> = Vec::new();
    assert(string_models(out@) =~= spec_altium_rows(models.take(0)));
    for i in 0..records.len()
        invariant
            models == record_models(records@),
            string_models(out@) == spec_altium_rows(models.take(i as int)),
    {
        let rec = &records[i];
        proof {
            assert(models[i as int] == records@[i as int]@);
        }
        if rec.manufacturers.len() > 0 {
            out.push(altium_row(rec));
        }
        proof {
            assert(models.take(i + 1 as int).drop_last() =~= models.take(i as int));
            assert(models.take(i + 1 as int).last() == models[i as int]);
            assert(string_models(out@) =~= spec_altium_rows(models.take(i + 1 as int)));
        }
    }
    proof {
        assert(models.take(models.len() as int) =~= models);
    }
    out
}

/// The concatenation of a sequence of rows.
pub open spec fn spec_concat_rows(rows: Seq<Seq<char>>) -> Seq<char>
    decreases rows.len(),
{
    if rows.len() == 0 {
        Seq::empty()
    } else {
        spec_concat_rows(rows.drop_last()) + rows.last()
    }
}

/// The whole CSV text of a record sequence: the header, then the rows.
pub open spec fn spec_altium_csv(rs: Seq<RecordModel>) -> Seq<char> {
    spec_altium_header() + spec_concat_rows(spec_altium_rows(rs))
}

/// Renders the whole Altium CSV text of a record sequence.
pub fn altium_csv(records: &Vec<ComponentRecord>) -> (r: String)
    ensures
        r@ == spec_altium_csv(record_models(records@)),
{
    let rows = altium_rows(records);
    let ghost row_models = spec_altium_rows(record_models(records@));
    let mut out = String::from_str(altium_header());
    let ghost header = spec_altium_header();
    assert(out@ =~= header + spec_concat_rows(row_models.take(0)));
    for i in 0..rows.len()
        invariant
            row_models == spec_altium_rows(record_models(records@)),
            string_models(rows@) == row_models,
            out@ == header + spec_concat_rows(row_models.take(i as int)),
            header == spec_altium_header(),
    {
        out.append(rows[i].as_str());
        proof {
            assert(rows@[i as int]@ == row_models[i as int]);
            assert(row_models.take(i + 1 as int).drop_last() =~= row_models.take(i as int));
            assert(row_models.take(i + 1 as int).last() == row_models[i as int]);
            assert(out@ =~= header + spec_concat_rows(row_models.take(i + 1 as int)));
        }
    }
    proof {
        assert(row_models.take(row_models.len() as int) =~= row_models);
    }
    out
}

/// When every record carries at least one manufacturer part, the CSV
/// holds exactly one data row per record.
pub proof fn lemma_altium_row_count(rs: Seq<RecordModel>)
    requires
        forall|i: int| 0 <= i < rs.len() ==> #[trigger] rs[i].manufacturers.len() > 0,
    ensures
        spec_altium_rows(rs).len() == rs.len(),
    decreases rs.len(),
{
    if rs.len() > 0 {
        lemma_altium_row_count(rs.drop_last());
    }
}

} // verus!
