//! The component record, and the expansion of a parameter space into
//! records.
//!
//! One record is produced per (package, decade, base value) triple, fully
//! populated: formatted display value, tolerance, power rating, description,
//! part number and the requested manufacturer parts.  Records are built once
//! and never mutated; the serializers consume them in the order they were
//! produced (package outer loop, decade then base value inner loops).

use vstd::prelude::*;
use vstd::string::*;
use crate::LibraryError;
use crate::str_eq;
use crate::series::{supported_cardinality, spec_series, expand};
use crate::attributes::{spec_tolerance, spec_power_rating, tolerance_from_series,
    get_power_rating};
use crate::value_format::{spec_format_value, format_value};
use crate::encoders::{spec_vishay_mpn, spec_vishay_digikey_pn, spec_yageo_mpn,
    spec_yageo_mouser_pn, spec_koa_mpn, spec_koa_digikey_pn, generate_vishay_mpn,
    generate_vishay_digikey_pn, generate_yageo_mpn, generate_yageo_mouser_pn, generate_koa_mpn,
    generate_koa_digikey_pn};

verus! {

/// One manufacturer's identification of a component, with the distributor
/// that stocks it.
#[derive(Clone, Debug)]
pub struct ManufacturerPart {
    pub manufacturer: String,
    pub mpn: String,
    pub distributor: String,
    pub distributor_pn: String,
}

/// The mathematical content of a [`ManufacturerPart`].
#[verifier::ext_equal]
pub ghost struct MfrPartModel {
    pub manufacturer: Seq<char>,
    pub mpn: Seq<char>,
    pub distributor: Seq<char>,
    pub distributor_pn: Seq<char>,
}

impl View for ManufacturerPart {
    type V = MfrPartModel;

    open spec fn view(&self) -> MfrPartModel {
        MfrPartModel {
            manufacturer: self.manufacturer@,
            mpn: self.mpn@,
            distributor: self.distributor@,
            distributor_pn: self.distributor_pn@,
        }
    }
}

/// One fully populated component: the canonical unit the serializers
/// consume.
#[derive(Clone, Debug)]
pub struct ComponentRecord {
    /// Resistance in centi-ohms.
    pub cents: u64,
    /// The canonical display string of the value.
    pub formatted: String,
    /// The package code, such as `0603`.
    pub package: String,
    /// The tolerance class, such as `1%`.
    pub tolerance: String,
    /// The power rating, such as `1/10W`.
    pub power: String,
    /// The decade multiplier the value was expanded with.
    pub decade: u32,
    /// The catalogue description line.
    pub description: String,
    /// The library part number, such as `R0603_1.00K`.
    pub part_number: String,
    /// Requested manufacturer parts, in request order.
    pub manufacturers: Vec<ManufacturerPart>,
}

/// The mathematical content of a [`ComponentRecord`].
#[verifier::ext_equal]
pub ghost struct RecordModel {
    pub cents: int,
    pub formatted: Seq<char>,
    pub package: Seq<char>,
    pub tolerance: Seq<char>,
    pub power: Seq<char>,
    pub decade: int,
    pub description: Seq<char>,
    pub part_number: Seq<char>,
    pub manufacturers: Seq<MfrPartModel>,
}

impl View for ComponentRecord {
    type V = RecordModel;

    open spec fn view(&self) -> RecordModel {
        RecordModel {
            cents: self.cents as int,
            formatted: self.formatted@,
            package: self.package@,
            tolerance: self.tolerance@,
            power: self.power@,
            decade: self.decade as int,
            description: self.description@,
            part_number: self.part_number@,
            manufacturers: self.manufacturers@.map_values(|p: ManufacturerPart| p@),
        }
    }
}

/// The models of a sequence of manufacturer parts.
pub open spec fn mfr_models(s: Seq<ManufacturerPart>) -> Seq<MfrPartModel> {
    s.map_values(|p: ManufacturerPart| p@)
}

/// The models of a sequence of records.
pub open spec fn record_models(s: Seq<ComponentRecord>) -> Seq<RecordModel> {
    s.map_values(|r: ComponentRecord| r@)
}

/// The description line of a component: the formatted value, package,
/// tolerance and power rating in the fixed catalogue phrasing.
pub open spec fn spec_description(c: int, pkg: Seq<char>, tol: Seq<char>) -> Seq<char> {
    "RES SMT "@ + spec_format_value(c) + "ohms, "@ + pkg + ", "@ + tol + ", "@ + spec_power_rating(
        pkg,
    )
}

/// The library part number of a component: `R`, the package code, `_`,
/// and the formatted value.
pub open spec fn spec_part_number(pkg: Seq<char>, c: int) -> Seq<char> {
    "R"@ + pkg + "_"@ + spec_format_value(c)
}

/// The manufacturer parts requested by one manufacturer name: Vishay,
/// Yageo and KOA are known; other names contribute nothing.
pub open spec fn spec_mfr_entry(name: Seq<char>, pkg: Seq<char>, c: int) -> Seq<MfrPartModel> {
    if name == "Vishay"@ {
        seq![
            MfrPartModel {
                manufacturer: "Vishay"@,
                mpn: spec_vishay_mpn(pkg, c),
                distributor: "Digikey"@,
                distributor_pn: spec_vishay_digikey_pn(spec_format_value(c)),
            },
        ]
    } else if name == "Yageo"@ {
        seq![
            MfrPartModel {
                manufacturer: "Yageo"@,
                mpn: spec_yageo_mpn(pkg, c),
                distributor: "Mouser"@,
                distributor_pn: spec_yageo_mouser_pn(pkg, spec_format_value(c)),
            },
        ]
    } else if name == "KOA"@ {
        seq![
            MfrPartModel {
                manufacturer: "KOA Speer"@,
                mpn: spec_koa_mpn(pkg, c),
                distributor: "Digikey"@,
                distributor_pn: spec_koa_digikey_pn(pkg, c),
            },
        ]
    } else {
        Seq::empty()
    }
}

/// The manufacturer parts for a list of manufacturer names, in request
/// order.
pub open spec fn spec_mfr_parts(names: Seq<Seq<char>>, pkg: Seq<char>, c: int) -> Seq<
    MfrPartModel,
>
    decreases names.len(),
{
    if names.len() == 0 {
        Seq::empty()
    } else {
        spec_mfr_parts(names.drop_last(), pkg, c) + spec_mfr_entry(names.last(), pkg, c)
    }
}

/// Builds the manufacturer parts of one component.
fn manufacturer_parts(c: u64, package: &str, formatted: &str, manufacturers: &Vec<String>) -> (r:
    Vec<ManufacturerPart>)
    requires
        c < u64::MAX,
        formatted@ == spec_format_value(c as int),
    ensures
        mfr_models(r@) == spec_mfr_parts(manufacturers.deep_view(), package@, c as int),
{
    let ghost names = manufacturers.deep_view();
    let mut parts: Vec<ManufacturerPart> = Vec::new();
    assert(mfr_models(parts@) =~= spec_mfr_parts(names.take(0), package@, c as int));
    for i in 0..manufacturers.len()
        invariant
            c < u64::MAX,
            formatted@ == spec_format_value(c as int),
            names == manufacturers.deep_view(),
            mfr_models(parts@) == spec_mfr_parts(names.take(i as int), package@, c as int),
    {
        let name = &manufacturers[i];
        proof {
            assert(names[i as int] == manufacturers@[i as int]@);
        }
        if str_eq(name.as_str(), "Vishay") {
            parts.push(
                ManufacturerPart {
                    manufacturer: String::from_str("Vishay"),
                    mpn: generate_vishay_mpn(c, package),
                    distributor: String::from_str("Digikey"),
                    distributor_pn: generate_vishay_digikey_pn(formatted),
                },
            );
        } else if str_eq(name.as_str(), "Yageo") {
            parts.push(
                ManufacturerPart {
                    manufacturer: String::from_str("Yageo"),
                    mpn: generate_yageo_mpn(c, package),
                    distributor: String::from_str("Mouser"),
                    distributor_pn: generate_yageo_mouser_pn(formatted, package),
                },
            );
        } else if str_eq(name.as_str(), "KOA") {
            parts.push(
                ManufacturerPart {
                    manufacturer: String::from_str("KOA Speer"),
                    mpn: generate_koa_mpn(c, package),
                    distributor: String::from_str("Digikey"),
                    distributor_pn: generate_koa_digikey_pn(c, package),
                },
            );
        }
        proof {
            assert(names.take(i + 1 as int).drop_last() =~= names.take(i as int));
            assert(names.take(i + 1 as int).last() == names[i as int]);
            assert(mfr_models(parts@) =~= spec_mfr_parts(
                names.take(i + 1 as int),
                package@,
                c as int,
            ));
        }
    }
    proof {
        assert(names.take(names.len() as int) =~= names);
    }
    parts
}

/// The record of one (package, decade, base value) triple.  `tol` is the
/// tolerance string of the series the base value came from.
pub open spec fn spec_record(
    pkg: Seq<char>,
    d: int,
    b: int,
    mfrs: Seq<Seq<char>>,
    tol: Seq<char>,
) -> RecordModel {
    RecordModel {
        cents: b * d,
        formatted: spec_format_value(b * d),
        package: pkg,
        tolerance: tol,
        power: spec_power_rating(pkg),
        decade: d,
        description: spec_description(b * d, pkg, tol),
        part_number: spec_part_number(pkg, b * d),
        manufacturers: spec_mfr_parts(mfrs, pkg, b * d),
    }
}

/// Builds the record of one (package, decade, base value) triple.
pub fn make_record(
    b: u16,
    decade: u32,
    package: &str,
    tolerance: &str,
    manufacturers: &Vec<String>,
) -> (r: ComponentRecord)
    ensures
        r@ == spec_record(
            package@,
            decade as int,
            b as int,
            manufacturers.deep_view(),
            tolerance@,
        ),
{
    proof {
        assert((b as int) * (decade as int) <= 65535int * 4294967295int) by (nonlinear_arith)
            requires
                b <= 65535,
                decade <= 4294967295,
        ;
    }
    let c: u64 = (b as u64) * (decade as u64);
    let formatted = format_value(c);
    let mut description = String::from_str("RES SMT ");
    description.append(formatted.as_str());
    description.append("ohms, ");
    description.append(package);
    description.append(", ");
    description.append(tolerance);
    description.append(", ");
    description.append(get_power_rating(package));
    let mut part_number = String::from_str("R");
    part_number.append(package);
    part_number.append("_");
    part_number.append(formatted.as_str());
    let manufacturers = manufacturer_parts(c, package, formatted.as_str(), manufacturers);
    let r = ComponentRecord {
        cents: c,
        formatted,
        package: String::from_str(package),
        tolerance: String::from_str(tolerance),
        power: String::from_str(get_power_rating(package)),
        decade,
        description,
        part_number,
        manufacturers,
    };
    proof {
        assert(description@ =~= spec_description(c as int, package@, tolerance@));
        assert(part_number@ =~= spec_part_number(package@, c as int));
    }
    r
}

/// The records of one package and one decade: one per base value, in
/// table order.
pub open spec fn spec_decade_records(
    pkg: Seq<char>,
    d: int,
    tbl: Seq<u16>,
    mfrs: Seq<Seq<char>>,
    tol: Seq<char>,
) -> Seq<RecordModel>
    decreases tbl.len(),
{
    if tbl.len() == 0 {
        Seq::empty()
    } else {
        spec_decade_records(pkg, d, tbl.drop_last(), mfrs, tol) + seq![
            spec_record(pkg, d, tbl.last() as int, mfrs, tol),
        ]
    }
}

/// The records of one package: one run of base values per decade, in
/// decade order.
pub open spec fn spec_package_records(
    pkg: Seq<char>,
    decades: Seq<u32>,
    tbl: Seq<u16>,
    mfrs: Seq<Seq<char>>,
    tol: Seq<char>,
) -> Seq<RecordModel>
    decreases decades.len(),
{
    if decades.len() == 0 {
        Seq::empty()
    } else {
        spec_package_records(pkg, decades.drop_last(), tbl, mfrs, tol) + spec_decade_records(
            pkg,
            decades.last() as int,
            tbl,
            mfrs,
            tol,
        )
    }
}

/// The records of the whole parameter space: one block per package, in
/// package order.
pub open spec fn spec_all_records(
    pkgs: Seq<Seq<char>>,
    decades: Seq<u32>,
    tbl: Seq<u16>,
    mfrs: Seq<Seq<char>>,
    tol: Seq<char>,
) -> Seq<RecordModel>
    decreases pkgs.len(),
{
    if pkgs.len() == 0 {
        Seq::empty()
    } else {
        spec_all_records(pkgs.drop_last(), decades, tbl, mfrs, tol) + spec_package_records(
            pkgs.last(),
            decades,
            tbl,
            mfrs,
            tol,
        )
    }
}

/// Builds the records of one package and one decade.
fn decade_records(
    package: &str,
    decade: u32,
    table: &Vec<u16>,
    manufacturers: &Vec<String>,
    tolerance: &str,
) -> (r: Vec<ComponentRecord>)
    ensures
        record_models(r@) == spec_decade_records(
            package@,
            decade as int,
            table@,
            manufacturers.deep_view(),
            tolerance@,
        ),
{
    let mut out: Vec<ComponentRecord> = Vec::new();
    assert(record_models(out@) =~= spec_decade_records(
        package@,
        decade as int,
        table@.take(0),
        manufacturers.deep_view(),
        tolerance@,
    ));
    for i in 0..table.len()
        invariant
            record_models(out@) == spec_decade_records(
                package@,
                decade as int,
                table@.take(i as int),
                manufacturers.deep_view(),
                tolerance@,
            ),
    {
        out.push(make_record(table[i], decade, package, tolerance, manufacturers));
        proof {
            assert(table@.take(i + 1 as int).drop_last() =~= table@.take(i as int));
            assert(table@.take(i + 1 as int).last() == table@[i as int]);
            assert(record_models(out@) =~= spec_decade_records(
                package@,
                decade as int,
                table@.take(i + 1 as int),
                manufacturers.deep_view(),
                tolerance@,
            ));
        }
    }
    proof {
        assert(table@.take(table@.len() as int) =~= table@);
    }
    out
}

/// Builds the records of one package across all decades.
fn package_records(
    package: &str,
    decades: &Vec<u32>,
    table: &Vec<u16>,
    manufacturers: &Vec<String>,
    tolerance: &str,
) -> (r: Vec<ComponentRecord>)
    ensures
        record_models(r@) == spec_package_records(
            package@,
            decades@,
            table@,
            manufacturers.deep_view(),
            tolerance@,
        ),
{
    let mut out: Vec<ComponentRecord> = Vec::new();
    assert(record_models(out@) =~= spec_package_records(
        package@,
        decades@.take(0),
        table@,
        manufacturers.deep_view(),
        tolerance@,
    ));
    for i in 0..decades.len()
        invariant
            record_models(out@) == spec_package_records(
                package@,
                decades@.take(i as int),
                table@,
                manufacturers.deep_view(),
                tolerance@,
            ),
    {
        let mut block = decade_records(package, decades[i], table, manufacturers, tolerance);
        out.append(&mut block);
        proof {
            assert(decades@.take(i + 1 as int).drop_last() =~= decades@.take(i as int));
            assert(decades@.take(i + 1 as int).last() == decades@[i as int]);
            assert(record_models(out@) =~= spec_package_records(
                package@,
                decades@.take(i + 1 as int),
                table@,
                manufacturers.deep_view(),
                tolerance@,
            ));
        }
    }
    proof {
        assert(decades@.take(decades@.len() as int) =~= decades@);
    }
    out
}

/// Expands the full parameter space into component records.
///
/// For every package, decade and base value of the series, one record is
/// produced, in that nesting order.  An unsupported series cardinality
/// aborts the whole request; no records are produced from it.
pub fn expand_components(
    series_cardinality: usize,
    packages: &Vec<String>,
    decades: &Vec<u32>,
    manufacturers: &Vec<String>,
) -> (r: Result<Vec<ComponentRecord>, LibraryError>)
    ensures
        supported_cardinality(series_cardinality as int) <==> r is Ok,
        r matches Err(e) ==> e == LibraryError::UnsupportedSeries,
        r matches Ok(v) ==> record_models(v@) == spec_all_records(
            packages.deep_view(),
            decades@,
            spec_series(series_cardinality as int),
            manufacturers.deep_view(),
            spec_tolerance(series_cardinality as int),
        ),
        r matches Ok(v) ==> v@.len() == packages@.len() * decades@.len() * spec_series(
            series_cardinality as int,
        ).len(),
{
    let table = match expand(series_cardinality) {
        Ok(t) => t,
        Err(e) => {
            return Err(e);
        },
    };
    let tolerance = tolerance_from_series(series_cardinality);
    let ghost pkgs = packages.deep_view();
    let mut out: Vec<ComponentRecord> = Vec::new();
    assert(record_models(out@) =~= spec_all_records(
        pkgs.take(0),
        decades@,
        table@,
        manufacturers.deep_view(),
        tolerance@,
    ));
    for i in 0..packages.len()
        invariant
            pkgs == packages.deep_view(),
            table@ == spec_series(series_cardinality as int),
            tolerance@ == spec_tolerance(series_cardinality as int),
            record_models(out@) == spec_all_records(
                pkgs.take(i as int),
                decades@,
                table@,
                manufacturers.deep_view(),
                tolerance@,
            ),
    {
        let package = &packages[i];
        proof {
            assert(pkgs[i as int] == packages@[i as int]@);
        }
        let mut block = package_records(package.as_str(), decades, &table, manufacturers, tolerance);
        out.append(&mut block);
        proof {
            assert(pkgs.take(i + 1 as int).drop_last() =~= pkgs.take(i as int));
            assert(pkgs.take(i + 1 as int).last() == pkgs[i as int]);
            assert(record_models(out@) =~= spec_all_records(
                pkgs.take(i + 1 as int),
                decades@,
                table@,
                manufacturers.deep_view(),
                tolerance@,
            ));
        }
    }
    proof {
        assert(pkgs.take(pkgs.len() as int) =~= pkgs);
        lemma_total_record_count(
            pkgs,
            decades@,
            table@,
            manufacturers.deep_view(),
            tolerance@,
        );
        assert(pkgs.len() == packages@.len());
    }
    Ok(out)
}

/// The record count of one decade run equals the value table's length.
pub proof fn lemma_decade_record_count(
    pkg: Seq<char>,
    d: int,
    tbl: Seq<u16>,
    mfrs: Seq<Seq<char>>,
    tol: Seq<char>,
)
    ensures
        spec_decade_records(pkg, d, tbl, mfrs, tol).len() == tbl.len(),
    decreases tbl.len(),
{
    if tbl.len() > 0 {
        lemma_decade_record_count(pkg, d, tbl.drop_last(), mfrs, tol);
    }
}

/// The record count of one package equals decades times values.
pub proof fn lemma_package_record_count(
    pkg: Seq<char>,
    decades: Seq<u32>,
    tbl: Seq<u16>,
    mfrs: Seq<Seq<char>>,
    tol: Seq<char>,
)
    ensures
        spec_package_records(pkg, decades, tbl, mfrs, tol).len() == decades.len() * tbl.len(),
    decreases decades.len(),
{
    if decades.len() > 0 {
        lemma_package_record_count(pkg, decades.drop_last(), tbl, mfrs, tol);
        lemma_decade_record_count(pkg, decades.last() as int, tbl, mfrs, tol);
        assert((decades.len() - 1) * tbl.len() + tbl.len() == decades.len() * tbl.len())
            by (nonlinear_arith);
    }
}

/// The total record count equals packages times decades times values:
/// the expansion covers the parameter space exactly once.
pub proof fn lemma_total_record_count(
    pkgs: Seq<Seq<char>>,
    decades: Seq<u32>,
    tbl: Seq<u16>,
    mfrs: Seq<Seq<char>>,
    tol: Seq<char>,
)
    ensures
        spec_all_records(pkgs, decades, tbl, mfrs, tol).len() == pkgs.len() * decades.len()
            * tbl.len(),
    decreases pkgs.len(),
{
    if pkgs.len() > 0 {
        lemma_total_record_count(pkgs.drop_last(), decades, tbl, mfrs, tol);
        lemma_package_record_count(pkgs.last(), decades, tbl, mfrs, tol);
        assert((pkgs.len() - 1) * decades.len() * tbl.len() + decades.len() * tbl.len()
            == pkgs.len() * decades.len() * tbl.len()) by (nonlinear_arith);
    } else {
        assert(0 * decades.len() * tbl.len() == 0) by (nonlinear_arith);
    }
}

} // verus!
