//! The resistor library generator.
//!
//! A `Resistor` is built for one series and package and then driven decade
//! by decade: each pass renders every base value of the series, assigns
//! the Digikey distributor number, and appends one CSV row per value to
//! the accumulated Altium library text.  The same state also feeds the
//! KiCad symbol library backend.
//!
//! The current display value is kept twice: as the rendered string and as
//! the exact value in centi-ohms it renders, which is what the
//! manufacturer encoders consume.

use vstd::prelude::*;
use vstd::string::*;
use crate::LibraryError;
use crate::str_eq;
use crate::series::{supported_cardinality, spec_series, expand, lemma_series_well_formed};
use crate::attributes::{spec_watts, spec_tolerance, spec_power_rating_full, spec_metric_name,
    watts_for_package, tolerance_from_series, power_rating_full, get_metric_name};
use crate::value_format::{spec_format_value, spec_display_base, format_value, push_display_base};
use crate::encoders::{spec_vishay_mpn, generate_vishay_mpn as encode_vishay_mpn};
use crate::kicad_symbol::{KicadSymbol, KicadSymbolLib, SymbolModel, symbol_models,
    spec_library_text};

verus! {

/// The decade multipliers the library generator renders: one through one
/// hundred thousand.
pub open spec fn standard_decade(d: int) -> bool {
    d == 1 || d == 10 || d == 100 || d == 1000 || d == 10000 || d == 100000
}

/// A resistor library generator for one series and package.
#[derive(Clone, Debug)]
pub struct Resistor {
    display: bool,
    series: usize,
    name: String,
    full_part_name: String,
    full_series: String,
    value: String,
    manuf: String,
    case: String,
    power: String,
    series_array: Vec<u16>,
    value_cents: u64,
}

/// The library name of a value in a case: `RES`, the case, `_`, the value.
pub open spec fn spec_res_name(case: Seq<char>, value: Seq<char>) -> Seq<char> {
    "RES"@ + case + "_"@ + value
}

/// The Digikey suffix letters of a case for the first decade.
pub open spec fn spec_dk1_suffix(case: Seq<char>) -> Seq<char> {
    if case == "0402"@ {
        "LLCT"@
    } else if case == "0603"@ {
        "HHCT"@
    } else if case == "0805"@ {
        "CCCT"@
    } else if case == "1206"@ {
        "FFCT"@
    } else if case == "1210"@ {
        "AACT"@
    } else if case == "1218"@ {
        "ANCT"@
    } else if case == "2010"@ {
        "ACCT"@
    } else if case == "2512"@ {
        "AFCT"@
    } else {
        "XXXX"@
    }
}

/// The Digikey suffix letters of a case for the later decades.
pub open spec fn spec_dkn_suffix(case: Seq<char>) -> Seq<char> {
    if case == "0402"@ {
        "LCT"@
    } else if case == "0603"@ {
        "HCT"@
    } else if case == "0805"@ {
        "CCT"@
    } else if case == "1206"@ {
        "FCT"@
    } else if case == "1210"@ {
        "VCT"@
    } else if case == "1218"@ {
        "KANCT"@
    } else if case == "2010"@ {
        "KACCT"@
    } else if case == "2512"@ {
        "KAFCT"@
    } else {
        "XXX"@
    }
}

/// The Digikey distributor number of a value.  The first decade spells
/// the raw base value (trailing zeros dropped) and uses its own suffix
/// letters; later decades spell the canonical display value.
pub open spec fn spec_digikey_pn(case: Seq<char>, b: int, value: Seq<char>, decade: int) -> Seq<
    char,
> {
    if decade == 1 {
        "541-"@ + spec_display_base(b) + spec_dk1_suffix(case) + "-ND"@
    } else {
        "541-"@ + value + spec_dkn_suffix(case) + "-ND"@
    }
}

/// One CSV row of the Altium library: the thirteen columns around a
/// value, its case, power and distributor number, CR-LF ended.
pub open spec fn spec_part_row(
    case: Seq<char>,
    value: Seq<char>,
    power: Seq<char>,
    manuf: Seq<char>,
) -> Seq<char> {
    "RES"@ + case + "_"@ + value + ",\"RES "@ + case + " "@ + value + "Ohm "@ + power + "W\","@
        + value + ","@ + case + ","@ + power + ",Digikey,"@ + manuf
        + ",Atlantix_R.SchLib,Res1,Atlantix_R.PcbLib,RES"@ + case
        + ",Atlantix EDA, =Description\r\n"@
}

/// The CSV row of one base value under one decade.
pub open spec fn spec_row(b: int, decade: int, case: Seq<char>, power: Seq<char>) -> Seq<char> {
    spec_part_row(
        case,
        spec_format_value(b * decade),
        power,
        spec_digikey_pn(case, b, spec_format_value(b * decade), decade),
    )
}

/// The CSV rows of the first `n` base values of a table under one decade.
pub open spec fn spec_rows(
    tbl: Seq<u16>,
    decade: int,
    case: Seq<char>,
    power: Seq<char>,
) -> Seq<char>
    decreases tbl.len(),
{
    if tbl.len() == 0 {
        Seq::empty()
    } else {
        spec_rows(tbl.drop_last(), decade, case, power) + spec_row(
            tbl.last() as int,
            decade,
            case,
            power,
        )
    }
}


/// Holds when `b` differs from `a` in at most the manufacturer field.
pub closed spec fn same_but_manuf(a: Resistor, b: Resistor) -> bool {
    b == (Resistor { manuf: b.manuf, ..a })
}

/// Holds when `b` differs from `a` in at most the name field.
pub closed spec fn same_but_name(a: Resistor, b: Resistor) -> bool {
    b == (Resistor { name: b.name, ..a })
}

/// Holds when `b` differs from `a` in at most the CSV row field.
pub closed spec fn same_but_full_part_name(a: Resistor, b: Resistor) -> bool {
    b == (Resistor { full_part_name: b.full_part_name, ..a })
}

/// Holds when `b` differs from `a` in at most the display value and its
/// centi-ohm count.
pub closed spec fn same_but_value(a: Resistor, b: Resistor) -> bool {
    b == (Resistor { value: b.value, value_cents: b.value_cents, ..a })
}


/// Holds when `b` differs from `a` in at most the display value, its
/// centi-ohm count, and the manufacturer field.
pub closed spec fn same_but_value_manuf(a: Resistor, b: Resistor) -> bool {
    b == (Resistor { value: b.value, value_cents: b.value_cents, manuf: b.manuf, ..a })
}

/// The KiCad symbol of one base value under one decade: named and valued
/// like the Altium rows, with the Atlantix footprint reference and the
/// Vishay and Digikey identification of the part.
pub open spec fn spec_resistor_symbol(
    case: Seq<char>,
    b: int,
    decade: int,
    series: int,
    style: Seq<char>,
) -> SymbolModel {
    SymbolModel {
        name: "R"@ + case + "_"@ + spec_format_value(b * decade),
        reference: "R"@,
        value: spec_format_value(b * decade),
        footprint: "Atlantix_Resistors:R_"@ + case + "_"@ + spec_metric_name(case),
        datasheet: "~"@,
        keywords: "R res resistor"@,
        description: "RES SMT "@ + spec_format_value(b * decade) + "ohms, "@ + case + ", "@
            + spec_tolerance(series) + ", "@ + spec_power_rating_full(case),
        symbol_style: style,
        manufacturer: "Vishay"@,
        mpn: spec_vishay_mpn(case, b * decade),
        supplier: "Digikey"@,
        supplier_pn: spec_digikey_pn(case, b, spec_format_value(b * decade), decade),
        supplier_url: "https://www.digikey.com/products/en?keywords="@ + spec_digikey_pn(
            case,
            b,
            spec_format_value(b * decade),
            decade,
        ),
    }
}

/// The symbols of the first values of a table under one decade.
pub open spec fn spec_decade_symbols(
    case: Seq<char>,
    tbl: Seq<u16>,
    decade: int,
    series: int,
    style: Seq<char>,
) -> Seq<SymbolModel>
    decreases tbl.len(),
{
    if tbl.len() == 0 {
        Seq::empty()
    } else {
        spec_decade_symbols(case, tbl.drop_last(), decade, series, style) + seq![
            spec_resistor_symbol(case, tbl.last() as int, decade, series, style),
        ]
    }
}

/// The symbols of a table across decades, in decade order.
pub open spec fn spec_all_symbols(
    case: Seq<char>,
    tbl: Seq<u16>,
    decades: Seq<u32>,
    series: int,
    style: Seq<char>,
) -> Seq<SymbolModel>
    decreases decades.len(),
{
    if decades.len() == 0 {
        Seq::empty()
    } else {
        spec_all_symbols(case, tbl, decades.drop_last(), series, style) + spec_decade_symbols(
            case,
            tbl,
            decades.last() as int,
            series,
            style,
        )
    }
}

impl Resistor {
    /// The generator is sound: its series is supported, its value table
    /// is the series table, and its display value renders its value in
    /// centi-ohms.
    pub closed spec fn wf(self) -> bool {
        &&& supported_cardinality(self.series as int)
        &&& self.series_array@ == spec_series(self.series as int)
        &&& self.value@ == spec_format_value(self.value_cents as int)
        &&& self.power@ == spec_watts(self.case@)
        &&& self.value_cents < 100000000000
    }

    /// The base value table of the series.
    pub closed spec fn spec_series_array(self) -> Seq<u16> {
        self.series_array@
    }

    /// The series cardinality.
    pub closed spec fn spec_series_len(self) -> int {
        self.series as int
    }

    /// The case (package) code.
    pub closed spec fn spec_case(self) -> Seq<char> {
        self.case@
    }

    /// The accumulated Altium library text.
    pub closed spec fn spec_full_series(self) -> Seq<char> {
        self.full_series@
    }

    /// The current display value.
    pub closed spec fn spec_value(self) -> Seq<char> {
        self.value@
    }

    /// The current display value in centi-ohms.
    pub closed spec fn spec_value_cents(self) -> int {
        self.value_cents as int
    }

    /// The current manufacturer or distributor number field.
    pub closed spec fn spec_manuf(self) -> Seq<char> {
        self.manuf@
    }

    /// The current library name field.
    pub closed spec fn spec_name(self) -> Seq<char> {
        self.name@
    }

    /// The current CSV row field.
    pub closed spec fn spec_full_part_name(self) -> Seq<char> {
        self.full_part_name@
    }

    /// The wattage fraction of the case.
    pub closed spec fn spec_power(self) -> Seq<char> {
        self.power@
    }

    /// A generator for one series and package, primed with the 1.00 K
    /// value.  A series without a value table is rejected: nothing can
    /// be generated from it.
    pub fn new(eseries: usize, package: String) -> (r: Result<Resistor, LibraryError>)
        ensures
            supported_cardinality(eseries as int) <==> r is Ok,
            r matches Err(e) ==> e == LibraryError::UnsupportedSeries,
            r matches Ok(res) ==> res.wf() && res.spec_series_len() == eseries
                && res.spec_case() == package@ && res.spec_full_series() == Seq::<char>::empty()
                && res.spec_value() == "1.00K"@ && res.spec_value_cents() == 100000
                && res.spec_manuf() == "Vishay"@ && res.spec_name() == spec_res_name(
                package@,
                "1.00K"@,
            ) && res.spec_full_part_name() == spec_res_name(package@, "1.00K"@)
                && res.spec_power() == spec_watts(package@),
    {
        let alpha = match expand(eseries) {
            Ok(t) => t,
            Err(e) => {
                return Err(e);
            },
        };
        let watts = watts_for_package(package.as_str());
        let mut name = String::from_str("RES");
        name.append(package.as_str());
        name.append("_");
        name.append("1.00K");
        let res = Resistor {
            display: false,
            series: eseries,
            name: name.clone(),
            full_part_name: name,
            full_series: String::new(),
            value: String::from_str("1.00K"),
            manuf: String::from_str("Vishay"),
            case: package,
            power: String::from_str(watts),
            series_array: alpha,
            value_cents: 100000,
        };
        proof {
            reveal_strlit("1.00K");
            reveal_strlit("1");
            reveal_strlit(".");
            reveal_strlit("0");
            reveal_strlit("K");
            assert(res.value@ =~= spec_format_value(100000));
            assert(res.name@ =~= spec_res_name(res.case@, "1.00K"@));
        }
        Ok(res)
    }

    /// Assigns the Digikey distributor number of the value at `index`
    /// under `decade` to the manufacturer field.
    pub fn set_digikey_pn(&mut self, index: usize, decade: u32)
        requires
            index < old(self).spec_series_array().len(),
        ensures
            final(self).spec_manuf() == spec_digikey_pn(
                old(self).spec_case(),
                old(self).spec_series_array()[index as int] as int,
                old(self).spec_value(),
                decade as int,
            ),
            same_but_manuf(*old(self), *final(self)),
    {
        let mut pn = String::from_str("541-");
        if decade == 1 {
            push_display_base(&mut pn, self.series_array[index] as u64);
            if str_eq(self.case.as_str(), "0402") {
                pn.append("LLCT");
            } else if str_eq(self.case.as_str(), "0603") {
                pn.append("HHCT");
            } else if str_eq(self.case.as_str(), "0805") {
                pn.append("CCCT");
            } else if str_eq(self.case.as_str(), "1206") {
                pn.append("FFCT");
            } else if str_eq(self.case.as_str(), "1210") {
                pn.append("AACT");
            } else if str_eq(self.case.as_str(), "1218") {
                pn.append("ANCT");
            } else if str_eq(self.case.as_str(), "2010") {
                pn.append("ACCT");
            } else if str_eq(self.case.as_str(), "2512") {
                pn.append("AFCT");
            } else {
                pn.append("XXXX");
            }
        } else {
            pn.append(self.value.as_str());
            if str_eq(self.case.as_str(), "0402") {
                pn.append("LCT");
            } else if str_eq(self.case.as_str(), "0603") {
                pn.append("HCT");
            } else if str_eq(self.case.as_str(), "0805") {
                pn.append("CCT");
            } else if str_eq(self.case.as_str(), "1206") {
                pn.append("FCT");
            } else if str_eq(self.case.as_str(), "1210") {
                pn.append("VCT");
            } else if str_eq(self.case.as_str(), "1218") {
                pn.append("KANCT");
            } else if str_eq(self.case.as_str(), "2010") {
                pn.append("KACCT");
            } else if str_eq(self.case.as_str(), "2512") {
                pn.append("KAFCT");
            } else {
                pn.append("XXX");
            }
        }
        pn.append("-ND");
        self.manuf = pn;
        proof {
            assert(final(self).manuf@ =~= spec_digikey_pn(
                old(self).case@,
                old(self).series_array@[index as int] as int,
                old(self).value@,
                decade as int,
            ));
        }
    }

    /// The Vishay CRCW part number of the current value in this case.
    pub fn generate_vishay_mpn(&self) -> (r: String)
        requires
            self.wf(),
        ensures
            r@ == spec_vishay_mpn(self.spec_case(), self.spec_value_cents()),
    {
        encode_vishay_mpn(self.value_cents, self.case.as_str())
    }

    /// The library name of the current value: `RES`, the case, `_`, the
    /// value.
    pub fn set_name(&mut self) -> (r: String)
        ensures
            r@ == spec_res_name(old(self).spec_case(), old(self).spec_value()),
            *final(self) == *old(self),
    {
        let mut out = String::from_str("RES");
        out.append(self.case.as_str());
        out.append("_");
        out.append(self.value.as_str());
        proof {
            assert(out@ =~= spec_res_name(self.case@, self.value@));
        }
        out
    }

    /// Assigns the library name of the current value to the name field.
    pub fn set_full_name(&mut self)
        ensures
            final(self).spec_name() == spec_res_name(old(self).spec_case(), old(self).spec_value()),
            same_but_name(*old(self), *final(self)),
    {
        let n = self.set_name();
        self.name = n;
    }

    /// The CSV row of the current value, case, power and distributor
    /// number.
    pub fn set_part(&mut self) -> (r: String)
        ensures
            r@ == spec_part_row(
                old(self).spec_case(),
                old(self).spec_value(),
                old(self).spec_power(),
                old(self).spec_manuf(),
            ),
            *final(self) == *old(self),
    {
        let mut out = String::from_str("RES");
        out.append(self.case.as_str());
        out.append("_");
        out.append(self.value.as_str());
        out.append(",\"RES ");
        out.append(self.case.as_str());
        out.append(" ");
        out.append(self.value.as_str());
        out.append("Ohm ");
        out.append(self.power.as_str());
        out.append("W\",");
        out.append(self.value.as_str());
        out.append(",");
        out.append(self.case.as_str());
        out.append(",");
        out.append(self.power.as_str());
        out.append(",Digikey,");
        out.append(self.manuf.as_str());
        out.append(",Atlantix_R.SchLib,Res1,Atlantix_R.PcbLib,RES");
        out.append(self.case.as_str());
        out.append(",Atlantix EDA, =Description\r\n");
        proof {
            assert(out@ =~= spec_part_row(self.case@, self.value@, self.power@, self.manuf@));
        }
        out
    }

    /// Assigns the CSV row of the current value to the row field.
    pub fn set_full_part_name(&mut self)
        ensures
            final(self).spec_full_part_name() == spec_part_row(
                old(self).spec_case(),
                old(self).spec_value(),
                old(self).spec_power(),
                old(self).spec_manuf(),
            ),
            same_but_full_part_name(*old(self), *final(self)),
    {
        let p = self.set_part();
        self.full_part_name = p;
    }

    /// Renders the value at `index` scaled by `decade` into the value
    /// field.
    pub fn update_value_for_decade(&mut self, index: usize, decade: u32)
        requires
            old(self).wf(),
            index < old(self).spec_series_array().len(),
            standard_decade(decade as int),
        ensures
            final(self).wf(),
            final(self).spec_value_cents() == old(self).spec_series_array()[index as int] * decade,
            final(self).spec_value() == spec_format_value(
                old(self).spec_series_array()[index as int] * decade,
            ),
            same_but_value(*old(self), *final(self)),
    {
        let b = self.series_array[index];
        proof {
            assert((b as int) * (decade as int) <= 65535int * 100000int) by (nonlinear_arith)
                requires
                    b <= 65535,
                    decade <= 100000,
            ;
        }
        let c: u64 = (b as u64) * (decade as u64);
        self.value = format_value(c);
        self.value_cents = c;
    }

    /// Renders one decade of the series: for every base value, the
    /// display value, the Digikey number, the library name and the CSV
    /// row, appending each row to the accumulated library text.  Returns
    /// the whole text accumulated so far.
    pub fn generate(&mut self, decade: u32) -> (r: String)
        requires
            old(self).wf(),
            standard_decade(decade as int),
        ensures
            final(self).wf(),
            final(self).spec_full_series() == old(self).spec_full_series() + spec_rows(
                spec_series(old(self).spec_series_len()),
                decade as int,
                old(self).spec_case(),
                old(self).spec_power(),
            ),
            r@ == final(self).spec_full_series(),
    {
        let ghost tbl = spec_series(old(self).spec_series_len());
        proof {
            lemma_series_well_formed(old(self).spec_series_len());
        }
        let n = self.series_array.len();
        for index in 0..n
            invariant
                self.wf(),
                n == self.series_array@.len(),
                self.series_array@ == tbl,
                self.series == old(self).series,
                self.case == old(self).case,
                self.power == old(self).power,
                self.display == old(self).display,
                tbl == spec_series(old(self).spec_series_len()),
                standard_decade(decade as int),
                self.full_series@ == old(self).full_series@ + spec_rows(
                    tbl.take(index as int),
                    decade as int,
                    old(self).case@,
                    old(self).power@,
                ),
        {
            self.update_value_for_decade(index, decade);
            self.set_digikey_pn(index, decade);
            self.set_full_name();
            self.set_full_part_name();
            let row = self.full_part_name.clone();
            self.full_series.append(row.as_str());
            proof {
                assert(tbl.take(index + 1 as int).drop_last() =~= tbl.take(index as int));
                assert(tbl.take(index + 1 as int).last() == tbl[index as int]);
                assert(self.full_series@ =~= old(self).full_series@ + spec_rows(
                    tbl.take(index + 1 as int),
                    decade as int,
                    old(self).case@,
                    old(self).power@,
                ));
            }
        }
        proof {
            assert(tbl.take(tbl.len() as int) =~= tbl);
        }
        self.full_series.clone()
    }

    /// The package code as it stands: imperial names equal the codes.
    pub fn get_imperial_name<'a>(&self, package: &'a str) -> (r: &'a str)
        ensures
            r@ == package@,
    {
        package
    }

    /// The metric body name of a package code.
    pub fn get_metric_name(&self, package: &str) -> (r: &'static str)
        ensures
            r@ == spec_metric_name(package@),
    {
        get_metric_name(package)
    }

    /// The display value unchanged: descriptions spell values the way
    /// the formatter already rendered them.
    pub fn format_resistance_for_description(&self, value: &str) -> (r: String)
        ensures
            r@ == value@,
    {
        String::from_str(value)
    }

    /// The tolerance class of a series cardinality, `1%` outside the
    /// table.
    pub fn get_tolerance_from_series(&self, series: usize) -> (r: &'static str)
        ensures
            r@ == spec_tolerance(series as int),
    {
        tolerance_from_series(series)
    }

    /// The power rating of a package code, `1/10W` outside the table.
    pub fn get_power_rating_from_package(&self, package: &str) -> (r: &'static str)
        ensures
            r@ == spec_power_rating_full(package@),
    {
        power_rating_full(package)
    }

    /// Adds one decade's symbols for every base value to a symbol
    /// library.
    fn add_symbols_for_decade(&mut self, decade: u32, symbol_style: &str, lib: &mut KicadSymbolLib)
        requires
            old(self).wf(),
            standard_decade(decade as int),
        ensures
            final(self).wf(),
            same_but_value_manuf(*old(self), *final(self)),
            symbol_models(final(lib).symbols@) == symbol_models(old(lib).symbols@)
                + spec_decade_symbols(
                old(self).spec_case(),
                spec_series(old(self).spec_series_len()),
                decade as int,
                old(self).spec_series_len(),
                symbol_style@,
            ),
    {
        let ghost tbl = spec_series(old(self).spec_series_len());
        let ghost base = symbol_models(old(lib).symbols@);
        assert(symbol_models(lib.symbols@) =~= base + spec_decade_symbols(
            old(self).spec_case(),
            tbl.take(0),
            decade as int,
            old(self).spec_series_len(),
            symbol_style@,
        ));
        let n = self.series_array.len();
        for index in 0..n
            invariant
                self.wf(),
                n == self.series_array@.len(),
                self.series_array@ == tbl,
                self.series_array == old(self).series_array,
                self.series == old(self).series,
                self.case == old(self).case,
                self.power == old(self).power,
                self.display == old(self).display,
                self.name == old(self).name,
                self.full_part_name == old(self).full_part_name,
                self.full_series == old(self).full_series,
                tbl == spec_series(old(self).spec_series_len()),
                standard_decade(decade as int),
                symbol_models(lib.symbols@) == base + spec_decade_symbols(
                    old(self).spec_case(),
                    tbl.take(index as int),
                    decade as int,
                    old(self).spec_series_len(),
                    symbol_style@,
                ),
        {
            self.update_value_for_decade(index, decade);
            let mut symbol_name = String::from_str("R");
            symbol_name.append(self.case.as_str());
            symbol_name.append("_");
            symbol_name.append(self.value.as_str());
            let tolerance = self.get_tolerance_from_series(self.series);
            let power_rating = self.get_power_rating_from_package(self.case.as_str());
            let formatted = self.format_resistance_for_description(self.value.as_str());
            let mut description = String::from_str("RES SMT ");
            description.append(formatted.as_str());
            description.append("ohms, ");
            description.append(self.case.as_str());
            description.append(", ");
            description.append(tolerance);
            description.append(", ");
            description.append(power_rating);
            let mut footprint_name = String::from_str("Atlantix_Resistors:R_");
            footprint_name.append(self.get_imperial_name(self.case.as_str()));
            footprint_name.append("_");
            footprint_name.append(self.get_metric_name(self.case.as_str()));
            let vishay_mpn = self.generate_vishay_mpn();
            self.set_digikey_pn(index, decade);
            let digikey_pn = self.manuf.clone();
            let mut supplier_url = String::from_str(
                "https://www.digikey.com/products/en?keywords=",
            );
            supplier_url.append(digikey_pn.as_str());
            let mut symbol = KicadSymbol::new(
                symbol_name,
                self.value.clone(),
                footprint_name,
                symbol_style,
            ).with_manufacturer_info(
                String::from_str("Vishay"),
                vishay_mpn,
                String::from_str("Digikey"),
                digikey_pn,
                supplier_url,
            );
            symbol.description = description;
            let ghost pre = lib.symbols@;
            lib.add_symbol(symbol);
            proof {
                assert(lib.symbols@ == pre.push(symbol));
                assert(symbol_models(pre.push(symbol)) =~= symbol_models(pre).push(symbol@));
                assert(symbol@ =~= spec_resistor_symbol(
                    old(self).spec_case(),
                    tbl[index as int] as int,
                    decade as int,
                    old(self).spec_series_len(),
                    symbol_style@,
                ));
                assert(symbol@ == spec_resistor_symbol(
                    old(self).spec_case(),
                    tbl[index as int] as int,
                    decade as int,
                    old(self).spec_series_len(),
                    symbol_style@,
                ));
                assert(tbl.take(index + 1 as int).drop_last() =~= tbl.take(index as int));
                assert(tbl.take(index + 1 as int).last() == tbl[index as int]);
                assert(symbol_models(lib.symbols@) =~~= base + spec_decade_symbols(
                    old(self).spec_case(),
                    tbl.take(index + 1 as int),
                    decade as int,
                    old(self).spec_series_len(),
                    symbol_style@,
                ));
            }
        }
        proof {
            assert(tbl.take(tbl.len() as int) =~= tbl);
        }
    }

    /// Renders the whole KiCad symbol library of this series and case:
    /// one symbol per base value and decade, in decade order, in the
    /// requested body style.
    pub fn kicad_symbols_content(&mut self, decades: &Vec<u32>, symbol_style: &str) -> (r: String)
        requires
            old(self).wf(),
            forall|i: int| 0 <= i < decades@.len() ==> standard_decade(decades@[i] as int),
        ensures
            final(self).wf(),
            same_but_value_manuf(*old(self), *final(self)),
            r@ == spec_library_text(
                spec_all_symbols(
                    old(self).spec_case(),
                    spec_series(old(self).spec_series_len()),
                    decades@,
                    old(self).spec_series_len(),
                    symbol_style@,
                ),
            ),
    {
        let ghost tbl = spec_series(old(self).spec_series_len());
        let mut lib = KicadSymbolLib::new();
        assert(symbol_models(lib.symbols@) =~= spec_all_symbols(
            old(self).spec_case(),
            tbl,
            decades@.take(0),
            old(self).spec_series_len(),
            symbol_style@,
        ));
        for di in 0..decades.len()
            invariant
                self.wf(),
                same_but_value_manuf(*old(self), *self),
                self.series == old(self).series,
                self.case == old(self).case,
                tbl == spec_series(old(self).spec_series_len()),
                forall|i: int| 0 <= i < decades@.len() ==> standard_decade(decades@[i] as int),
                symbol_models(lib.symbols@) == spec_all_symbols(
                    old(self).spec_case(),
                    tbl,
                    decades@.take(di as int),
                    old(self).spec_series_len(),
                    symbol_style@,
                ),
        {
            self.add_symbols_for_decade(decades[di], symbol_style, &mut lib);
            proof {
                assert(decades@.take(di + 1 as int).drop_last() =~= decades@.take(di as int));
                assert(decades@.take(di + 1 as int).last() == decades@[di as int]);
                assert(symbol_models(lib.symbols@) =~= spec_all_symbols(
                    old(self).spec_case(),
                    tbl,
                    decades@.take(di + 1 as int),
                    old(self).spec_series_len(),
                    symbol_style@,
                ));
            }
        }
        proof {
            assert(decades@.take(decades@.len() as int) =~= decades@);
        }
        lib.generate_library()
    }
}

} // verus!
