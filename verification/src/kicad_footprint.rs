//! The KiCad footprint backend.
//!
//! One legacy `module` S-expression per package, driven by a closed
//! geometry table of eight chip sizes.  Geometry is held in micrometres,
//! which represents every dimension of the table exactly; coordinates
//! render with three decimals, sizes and the courtyard with two.  A value
//! cut to two decimals rounds to nearest with ties to even; in the table
//! that arises only for the `0805` text offset and courtyard and for the
//! `2512` courtyard.
//!
//! The footprint is independent of resistance: one file serves a package.

use vstd::prelude::*;
use vstd::string::*;
use crate::LibraryError;
use crate::str_eq;
use crate::numfmt::{digit_seq, dec_digits, round_even, push_digit, push_u64, div_round_even};
use crate::value_format::{fixed2, push_fixed2};
use crate::attributes::{spec_metric_name, get_metric_name};

verus! {

/// One SMD pad of a footprint.
#[derive(Clone, Debug)]
pub struct Pad {
    pub number: String,
    pub pad_type: String,
    pub shape: String,
    /// Pad centre, micrometres from the footprint origin.
    pub at_x_um: i64,
    pub at_y_um: i64,
    /// Pad size in micrometres.
    pub size_x_um: u32,
    pub size_y_um: u32,
    /// Rounded-rectangle corner ratio in hundredths, when the shape has one.
    pub roundrect_rratio_centi: Option<u32>,
}

/// The mathematical content of a [`Pad`].
#[verifier::ext_equal]
pub ghost struct PadModel {
    pub number: Seq<char>,
    pub pad_type: Seq<char>,
    pub shape: Seq<char>,
    pub at_x_um: int,
    pub at_y_um: int,
    pub size_x_um: int,
    pub size_y_um: int,
    pub roundrect_rratio_centi: Option<u32>,
}

impl View for Pad {
    type V = PadModel;

    open spec fn view(&self) -> PadModel {
        PadModel {
            number: self.number@,
            pad_type: self.pad_type@,
            shape: self.shape@,
            at_x_um: self.at_x_um as int,
            at_y_um: self.at_y_um as int,
            size_x_um: self.size_x_um as int,
            size_y_um: self.size_y_um as int,
            roundrect_rratio_centi: self.roundrect_rratio_centi,
        }
    }
}

/// One footprint: name, text fields, pads and body geometry.
#[derive(Clone, Debug)]
pub struct KicadFootprint {
    pub name: String,
    pub description: String,
    pub tags: String,
    pub pads: Vec<Pad>,
    /// Body size in micrometres.
    pub body_size_x_um: u32,
    pub body_size_y_um: u32,
    /// Courtyard clearance beyond the body, micrometres.
    pub courtyard_margin_um: u32,
}

/// The mathematical content of a [`KicadFootprint`].
#[verifier::ext_equal]
pub ghost struct FootprintModel {
    pub name: Seq<char>,
    pub description: Seq<char>,
    pub tags: Seq<char>,
    pub pads: Seq<PadModel>,
    pub body_size_x_um: int,
    pub body_size_y_um: int,
    pub courtyard_margin_um: int,
}

impl View for KicadFootprint {
    type V = FootprintModel;

    open spec fn view(&self) -> FootprintModel {
        FootprintModel {
            name: self.name@,
            description: self.description@,
            tags: self.tags@,
            pads: self.pads@.map_values(|p: Pad| p@),
            body_size_x_um: self.body_size_x_um as int,
            body_size_y_um: self.body_size_y_um as int,
            courtyard_margin_um: self.courtyard_margin_um as int,
        }
    }
}

/// Micrometres rendered as millimetres with three decimals
/// (`775` is `0.775`).
pub open spec fn mm3(um: int) -> Seq<char> {
    dec_digits(um / 1000) + "."@ + digit_seq((um / 100) % 10) + digit_seq((um / 10) % 10)
        + digit_seq(um % 10)
}

/// Micrometres rendered as millimetres with three decimals and a sign.
pub open spec fn mm3_signed(um: int) -> Seq<char> {
    if um < 0 {
        "-"@ + mm3(-um)
    } else {
        mm3(um)
    }
}

/// Micrometres rendered as millimetres with two decimals, rounding the
/// last place to nearest, ties to even (`1625` is `1.62`).
pub open spec fn mm2(um: int) -> Seq<char> {
    fixed2(round_even(um, 10))
}

/// Appends micrometres as millimetres with three decimals.
pub fn push_mm3(out: &mut String, um: u64)
    ensures
        final(out)@ == old(out)@ + mm3(um as int),
{
    push_u64(out, um / 1000);
    out.append(".");
    push_digit(out, (um / 100) % 10);
    push_digit(out, (um / 10) % 10);
    push_digit(out, um % 10);
    proof {
        assert(final(out)@ =~= old(out)@ + mm3(um as int));
    }
}

/// Appends micrometres as signed millimetres with three decimals.
pub fn push_mm3_signed(out: &mut String, um: i64)
    requires
        um > i64::MIN,
    ensures
        final(out)@ == old(out)@ + mm3_signed(um as int),
{
    if um < 0 {
        out.append("-");
        push_mm3(out, (-um) as u64);
    } else {
        push_mm3(out, um as u64);
    }
    proof {
        assert(final(out)@ =~= old(out)@ + mm3_signed(um as int));
    }
}

/// Appends micrometres as millimetres with two decimals.
pub fn push_mm2(out: &mut String, um: u64)
    requires
        um < u64::MAX,
    ensures
        final(out)@ == old(out)@ + mm2(um as int),
{
    push_fixed2(out, div_round_even(um, 10));
}

/// Holds for the eight package codes of the geometry table.
pub open spec fn is_known_package(p: Seq<char>) -> bool {
    p == "0201"@ || p == "0402"@ || p == "0603"@ || p == "0805"@ || p == "1206"@ || p == "1210"@
        || p == "2010"@ || p == "2512"@
}

/// Body length in micrometres, by package.
pub open spec fn spec_body_length(p: Seq<char>) -> int {
    if p == "0201"@ {
        600
    } else if p == "0402"@ {
        1000
    } else if p == "0603"@ {
        1600
    } else if p == "0805"@ {
        2000
    } else if p == "1206"@ {
        3200
    } else if p == "1210"@ {
        3200
    } else if p == "2010"@ {
        5000
    } else {
        6350
    }
}

/// Body width in micrometres, by package.
pub open spec fn spec_body_width(p: Seq<char>) -> int {
    if p == "0201"@ {
        300
    } else if p == "0402"@ {
        500
    } else if p == "0603"@ {
        800
    } else if p == "0805"@ {
        1250
    } else if p == "1206"@ {
        1600
    } else if p == "1210"@ {
        2500
    } else if p == "2010"@ {
        2500
    } else {
        3200
    }
}

/// Pad width in micrometres, by package.
pub open spec fn spec_pad_width(p: Seq<char>) -> int {
    if p == "0201"@ {
        280
    } else if p == "0402"@ {
        600
    } else if p == "0603"@ {
        900
    } else if p == "0805"@ {
        1000
    } else if p == "1206"@ {
        1150
    } else if p == "1210"@ {
        1150
    } else if p == "2010"@ {
        1500
    } else {
        1600
    }
}

/// Pad height in micrometres, by package.
pub open spec fn spec_pad_height(p: Seq<char>) -> int {
    if p == "0201"@ {
        430
    } else if p == "0402"@ {
        650
    } else if p == "0603"@ {
        950
    } else if p == "0805"@ {
        1450
    } else if p == "1206"@ {
        1800
    } else if p == "1210"@ {
        2700
    } else if p == "2010"@ {
        2800
    } else {
        3500
    }
}

/// Pad centre offset from the origin in micrometres, by package.
pub open spec fn spec_pad_center_x(p: Seq<char>) -> int {
    if p == "0201"@ {
        260
    } else if p == "0402"@ {
        480
    } else if p == "0603"@ {
        775
    } else if p == "0805"@ {
        950
    } else if p == "1206"@ {
        1475
    } else if p == "1210"@ {
        1475
    } else if p == "2010"@ {
        2250
    } else {
        2875
    }
}

/// The package geometry record handed to the footprint builder.
#[derive(Clone, Debug)]
pub struct PackageSpec {
    pub imperial: String,
    pub metric: String,
    pub body_length_um: u32,
    pub body_width_um: u32,
    pub pad_width_um: u32,
    pub pad_height_um: u32,
    pub pad_center_x_um: u32,
}

/// Looks a package code up in the geometry table.
pub fn get_package_specs(package: &str) -> (r: Option<PackageSpec>)
    ensures
        is_known_package(package@) <==> r is Some,
        r matches Some(s) ==> s.imperial@ == package@ && s.metric@ == spec_metric_name(package@)
            && s.body_length_um == spec_body_length(package@) && s.body_width_um == spec_body_width(
            package@,
        ) && s.pad_width_um == spec_pad_width(package@) && s.pad_height_um == spec_pad_height(
            package@,
        ) && s.pad_center_x_um == spec_pad_center_x(package@),
{
    if str_eq(package, "0201") {
        Some(
            PackageSpec {
                imperial: String::from_str(package),
                metric: String::from_str(get_metric_name(package)),
                body_length_um: 600,
                body_width_um: 300,
                pad_width_um: 280,
                pad_height_um: 430,
                pad_center_x_um: 260,
            },
        )
    } else if str_eq(package, "0402") {
        Some(
            PackageSpec {
                imperial: String::from_str(package),
                metric: String::from_str(get_metric_name(package)),
                body_length_um: 1000,
                body_width_um: 500,
                pad_width_um: 600,
                pad_height_um: 650,
                pad_center_x_um: 480,
            },
        )
    } else if str_eq(package, "0603") {
        Some(
            PackageSpec {
                imperial: String::from_str(package),
                metric: String::from_str(get_metric_name(package)),
                body_length_um: 1600,
                body_width_um: 800,
                pad_width_um: 900,
                pad_height_um: 950,
                pad_center_x_um: 775,
            },
        )
    } else if str_eq(package, "0805") {
        Some(
            PackageSpec {
                imperial: String::from_str(package),
                metric: String::from_str(get_metric_name(package)),
                body_length_um: 2000,
                body_width_um: 1250,
                pad_width_um: 1000,
                pad_height_um: 1450,
                pad_center_x_um: 950,
            },
        )
    } else if str_eq(package, "1206") {
        Some(
            PackageSpec {
                imperial: String::from_str(package),
                metric: String::from_str(get_metric_name(package)),
                body_length_um: 3200,
                body_width_um: 1600,
                pad_width_um: 1150,
                pad_height_um: 1800,
                pad_center_x_um: 1475,
            },
        )
    } else if str_eq(package, "1210") {
        Some(
            PackageSpec {
                imperial: String::from_str(package),
                metric: String::from_str(get_metric_name(package)),
                body_length_um: 3200,
                body_width_um: 2500,
                pad_width_um: 1150,
                pad_height_um: 2700,
                pad_center_x_um: 1475,
            },
        )
    } else if str_eq(package, "2010") {
        Some(
            PackageSpec {
                imperial: String::from_str(package),
                metric: String::from_str(get_metric_name(package)),
                body_length_um: 5000,
                body_width_um: 2500,
                pad_width_um: 1500,
                pad_height_um: 2800,
                pad_center_x_um: 2250,
            },
        )
    } else if str_eq(package, "2512") {
        Some(
            PackageSpec {
                imperial: String::from_str(package),
                metric: String::from_str(get_metric_name(package)),
                body_length_um: 6350,
                body_width_um: 3200,
                pad_width_um: 1600,
                pad_height_um: 3500,
                pad_center_x_um: 2875,
            },
        )
    } else {
        None
    }
}

/// Looks a package code up in the geometry table; an unknown code is an
/// error, not a silent default: a footprint must never be guessed.
pub fn package_geometry(package: &str) -> (r: Result<PackageSpec, LibraryError>)
    ensures
        is_known_package(package@) <==> r is Ok,
        r matches Ok(s) ==> s.imperial@ == package@ && s.metric@ == spec_metric_name(package@)
            && s.body_length_um == spec_body_length(package@) && s.body_width_um == spec_body_width(
            package@,
        ) && s.pad_width_um == spec_pad_width(package@) && s.pad_height_um == spec_pad_height(
            package@,
        ) && s.pad_center_x_um == spec_pad_center_x(package@),
        r matches Err(e) ==> e == LibraryError::UnknownPackage,
{
    match get_package_specs(package) {
        Some(s) => Ok(s),
        None => Err(LibraryError::UnknownPackage),
    }
}

/// The footprint name of a package: `R_`, the code, `_`, the metric name.
pub open spec fn spec_footprint_name(p: Seq<char>) -> Seq<char> {
    "R_"@ + p + "_"@ + spec_metric_name(p)
}

/// The description line of a package's footprint.
pub open spec fn spec_footprint_description(p: Seq<char>) -> Seq<char> {
    "Resistor SMD "@ + p + " ("@ + spec_metric_name(p)
        + "), square (rectangular) end terminal, IPC_7351 nominal"@
}

/// The footprint of a known package: two symmetric rounded-rectangle
/// pads, the body geometry of the table, and a quarter-millimetre
/// courtyard margin.
pub open spec fn spec_smd_resistor(p: Seq<char>) -> FootprintModel {
    FootprintModel {
        name: spec_footprint_name(p),
        description: spec_footprint_description(p),
        tags: "resistor"@,
        pads: seq![
            PadModel {
                number: "1"@,
                pad_type: "smd"@,
                shape: "roundrect"@,
                at_x_um: -spec_pad_center_x(p),
                at_y_um: 0,
                size_x_um: spec_pad_width(p),
                size_y_um: spec_pad_height(p),
                roundrect_rratio_centi: Some(25u32),
            },
            PadModel {
                number: "2"@,
                pad_type: "smd"@,
                shape: "roundrect"@,
                at_x_um: spec_pad_center_x(p),
                at_y_um: 0,
                size_x_um: spec_pad_width(p),
                size_y_um: spec_pad_height(p),
                roundrect_rratio_centi: Some(25u32),
            },
        ],
        body_size_x_um: spec_body_length(p),
        body_size_y_um: spec_body_width(p),
        courtyard_margin_um: 250,
    }
}

impl KicadFootprint {
    /// Builds the footprint of a package, or nothing for a code outside
    /// the geometry table.
    pub fn new_smd_resistor(package: &str) -> (r: Option<KicadFootprint>)
        ensures
            is_known_package(package@) <==> r is Some,
            r matches Some(f) ==> f@ == spec_smd_resistor(package@),
    {
        let specs = match get_package_specs(package) {
            Some(s) => s,
            None => {
                return None;
            },
        };
        let mut name = String::from_str("R_");
        name.append(specs.imperial.as_str());
        name.append("_");
        name.append(specs.metric.as_str());
        let mut description = String::from_str("Resistor SMD ");
        description.append(specs.imperial.as_str());
        description.append(" (");
        description.append(specs.metric.as_str());
        description.append("), square (rectangular) end terminal, IPC_7351 nominal");
        let mut pads: Vec<Pad> = Vec::new();
        pads.push(
            Pad {
                number: String::from_str("1"),
                pad_type: String::from_str("smd"),
                shape: String::from_str("roundrect"),
                at_x_um: -(specs.pad_center_x_um as i64),
                at_y_um: 0,
                size_x_um: specs.pad_width_um,
                size_y_um: specs.pad_height_um,
                roundrect_rratio_centi: Some(25),
            },
        );
        pads.push(
            Pad {
                number: String::from_str("2"),
                pad_type: String::from_str("smd"),
                shape: String::from_str("roundrect"),
                at_x_um: specs.pad_center_x_um as i64,
                at_y_um: 0,
                size_x_um: specs.pad_width_um,
                size_y_um: specs.pad_height_um,
                roundrect_rratio_centi: Some(25),
            },
        );
        let f = KicadFootprint {
            name,
            description,
            tags: String::from_str("resistor"),
            pads,
            body_size_x_um: specs.body_length_um,
            body_size_y_um: specs.body_width_um,
            courtyard_margin_um: 250,
        };
        proof {
            assert(name@ =~= spec_footprint_name(package@));
            assert(description@ =~= spec_footprint_description(package@));
            assert(f@.pads =~= spec_smd_resistor(package@).pads);
        }
        Some(f)
    }
}

/// The S-expression text of one pad.
pub open spec fn spec_pad_text(p: PadModel) -> Seq<char> {
    "  (pad "@ + p.number + " "@ + p.pad_type + " "@ + p.shape + " (at "@ + mm3_signed(p.at_x_um)
        + " "@ + mm3_signed(p.at_y_um) + ") (size "@ + mm2(p.size_x_um) + " "@ + mm2(p.size_y_um)
        + ") (layers F.Cu F.Paste F.Mask)"@ + (match p.roundrect_rratio_centi {
        Some(rc) => " (roundrect_rratio "@ + fixed2(round_even(rc as int, 1)) + ")"@,
        None => Seq::empty(),
    }) + ")\n"@
}

/// The S-expression text of a pad sequence, in order.
pub open spec fn spec_pads_text(ps: Seq<PadModel>) -> Seq<char>
    decreases ps.len(),
{
    if ps.len() == 0 {
        Seq::empty()
    } else {
        spec_pads_text(ps.drop_last()) + spec_pad_text(ps.last())
    }
}

/// Renders the S-expression text of one pad.
pub fn pad_text(pad: &Pad) -> (r: String)
    requires
        pad.at_x_um > i64::MIN,
        pad.at_y_um > i64::MIN,
    ensures
        r@ == spec_pad_text(pad@),
{
    let mut out = String::from_str("  (pad ");
    out.append(pad.number.as_str());
    out.append(" ");
    out.append(pad.pad_type.as_str());
    out.append(" ");
    out.append(pad.shape.as_str());
    out.append(" (at ");
    push_mm3_signed(&mut out, pad.at_x_um);
    out.append(" ");
    push_mm3_signed(&mut out, pad.at_y_um);
    out.append(") (size ");
    push_mm2(&mut out, pad.size_x_um as u64);
    out.append(" ");
    push_mm2(&mut out, pad.size_y_um as u64);
    out.append(") (layers F.Cu F.Paste F.Mask)");
    match pad.roundrect_rratio_centi {
        Some(rc) => {
            out.append(" (roundrect_rratio ");
            push_fixed2(&mut out, div_round_even(rc as u64, 1));
            out.append(")");
        },
        None => {},
    }
    out.append(")\n");
    proof {
        assert(out@ =~= spec_pad_text(pad@));
    }
    out
}

/// The whole footprint file around a given `tedit` timestamp.
pub open spec fn spec_footprint_text(m: FootprintModel, tedit: Seq<char>) -> Seq<char> {
    let hx = m.body_size_x_um / 2;
    let hy = m.body_size_y_um / 2;
    let textoff = hy + 1000;
    let sx = hx - m.pads[0].size_x_um / 2 - 150;
    let sy = hy + 110;
    let cx = hx + m.courtyard_margin_um;
    let cy = hy + m.courtyard_margin_um;
    "(module "@ + m.name + " (layer F.Cu) (tedit "@ + tedit + ")\n  (descr \""@ + m.description
        + "\")\n  (tags "@ + m.tags + ")\n  (attr smd)\n  (fp_text reference REF** (at 0 -"@ + mm2(
        textoff,
    ) + ") (layer F.SilkS)\n    (effects (font (size 1 1) (thickness 0.15)))\n  )\n  (fp_text value "@
        + m.name + " (at 0 "@ + mm2(textoff)
        + ") (layer F.Fab)\n    (effects (font (size 1 1) (thickness 0.15)))\n  )\n"@
        + "  (fp_line (start -"@ + mm3(hx) + " "@ + mm3(hy) + ") (end -"@ + mm3(hx) + " -"@ + mm3(
        hy,
    ) + ") (layer F.Fab) (width 0.1))\n"@ + "  (fp_line (start -"@ + mm3(hx) + " -"@ + mm3(hy)
        + ") (end "@ + mm3(hx) + " -"@ + mm3(hy) + ") (layer F.Fab) (width 0.1))\n"@
        + "  (fp_line (start "@ + mm3(hx) + " -"@ + mm3(hy) + ") (end "@ + mm3(hx) + " "@ + mm3(hy)
        + ") (layer F.Fab) (width 0.1))\n"@ + "  (fp_line (start "@ + mm3(hx) + " "@ + mm3(hy)
        + ") (end -"@ + mm3(hx) + " "@ + mm3(hy) + ") (layer F.Fab) (width 0.1))\n"@
        + "  (fp_line (start -"@ + mm3(sx) + " -"@ + mm3(sy) + ") (end "@ + mm3(sx) + " -"@ + mm3(
        sy,
    ) + ") (layer F.SilkS) (width 0.12))\n"@ + "  (fp_line (start -"@ + mm3(sx) + " "@ + mm3(sy)
        + ") (end "@ + mm3(sx) + " "@ + mm3(sy) + ") (layer F.SilkS) (width 0.12))\n"@
        + "  (fp_line (start -"@ + mm2(cx) + " "@ + mm2(cy) + ") (end -"@ + mm2(cx) + " -"@ + mm2(
        cy,
    ) + ") (layer F.CrtYd) (width 0.05))\n"@ + "  (fp_line (start -"@ + mm2(cx) + " -"@ + mm2(cy)
        + ") (end "@ + mm2(cx) + " -"@ + mm2(cy) + ") (layer F.CrtYd) (width 0.05))\n"@
        + "  (fp_line (start "@ + mm2(cx) + " -"@ + mm2(cy) + ") (end "@ + mm2(cx) + " "@ + mm2(cy)
        + ") (layer F.CrtYd) (width 0.05))\n"@ + "  (fp_line (start "@ + mm2(cx) + " "@ + mm2(cy)
        + ") (end -"@ + mm2(cx) + " "@ + mm2(cy) + ") (layer F.CrtYd) (width 0.05))\n"@
        + spec_pads_text(m.pads) + "  (model ${KICAD6_3DMODEL_DIR}/Resistor_SMD.3dshapes/"@
        + m.name + ".wrl\n    (at (xyz 0 0 0))\n    (scale (xyz 1 1 1))\n    (rotate (xyz 0 0 0))\n  )\n)\n"@
}

impl KicadFootprint {
    /// Renders the footprint file around a given `tedit` timestamp.
    ///
    /// The silkscreen lines stop short of the pads, so the first pad must
    /// be narrow enough to leave them positive length.
    #[verifier::rlimit(100)]
    pub fn footprint_text(&self, tedit: &str) -> (r: String)
        requires
            self.pads@.len() >= 1,
            self.body_size_x_um / 2 >= self.pads@[0].size_x_um / 2 + 150,
            forall|i: int|
                0 <= i < self.pads@.len() ==> (#[trigger] self.pads@[i]).at_x_um > i64::MIN
                    && self.pads@[i].at_y_um > i64::MIN,
        ensures
            r@ == spec_footprint_text(self@, tedit@),
    {
        let hx: u64 = (self.body_size_x_um / 2) as u64;
        let hy: u64 = (self.body_size_y_um / 2) as u64;
        let textoff: u64 = hy + 1000;
        let sx: u64 = hx - (self.pads[0].size_x_um / 2) as u64 - 150;
        let sy: u64 = hy + 110;
        let cx: u64 = hx + self.courtyard_margin_um as u64;
        let cy: u64 = hy + self.courtyard_margin_um as u64;
        let mut out = String::from_str("(module ");
        out.append(self.name.as_str());
        out.append(" (layer F.Cu) (tedit ");
        out.append(tedit);
        out.append(")\n  (descr \"");
        out.append(self.description.as_str());
        out.append("\")\n  (tags ");
        out.append(self.tags.as_str());
        out.append(")\n  (attr smd)\n  (fp_text reference REF** (at 0 -");
        push_mm2(&mut out, textoff);
        out.append(") (layer F.SilkS)\n    (effects (font (size 1 1) (thickness 0.15)))\n  )\n  (fp_text value ");
        out.append(self.name.as_str());
        out.append(" (at 0 ");
        push_mm2(&mut out, textoff);
        out.append(") (layer F.Fab)\n    (effects (font (size 1 1) (thickness 0.15)))\n  )\n");
        out.append("  (fp_line (start -");
        push_mm3(&mut out, hx);
        out.append(" ");
        push_mm3(&mut out, hy);
        out.append(") (end -");
        push_mm3(&mut out, hx);
        out.append(" -");
        push_mm3(&mut out, hy);
        out.append(") (layer F.Fab) (width 0.1))\n");
        out.append("  (fp_line (start -");
        push_mm3(&mut out, hx);
        out.append(" -");
        push_mm3(&mut out, hy);
        out.append(") (end ");
        push_mm3(&mut out, hx);
        out.append(" -");
        push_mm3(&mut out, hy);
        out.append(") (layer F.Fab) (width 0.1))\n");
        out.append("  (fp_line (start ");
        push_mm3(&mut out, hx);
        out.append(" -");
        push_mm3(&mut out, hy);
        out.append(") (end ");
        push_mm3(&mut out, hx);
        out.append(" ");
        push_mm3(&mut out, hy);
        out.append(") (layer F.Fab) (width 0.1))\n");
        out.append("  (fp_line (start ");
        push_mm3(&mut out, hx);
        out.append(" ");
        push_mm3(&mut out, hy);
        out.append(") (end -");
        push_mm3(&mut out, hx);
        out.append(" ");
        push_mm3(&mut out, hy);
        out.append(") (layer F.Fab) (width 0.1))\n");
        out.append("  (fp_line (start -");
        push_mm3(&mut out, sx);
        out.append(" -");
        push_mm3(&mut out, sy);
        out.append(") (end ");
        push_mm3(&mut out, sx);
        out.append(" -");
        push_mm3(&mut out, sy);
        out.append(") (layer F.SilkS) (width 0.12))\n");
        out.append("  (fp_line (start -");
        push_mm3(&mut out, sx);
        out.append(" ");
        push_mm3(&mut out, sy);
        out.append(") (end ");
        push_mm3(&mut out, sx);
        out.append(" ");
        push_mm3(&mut out, sy);
        out.append(") (layer F.SilkS) (width 0.12))\n");
        out.append("  (fp_line (start -");
        push_mm2(&mut out, cx);
        out.append(" ");
        push_mm2(&mut out, cy);
        out.append(") (end -");
        push_mm2(&mut out, cx);
        out.append(" -");
        push_mm2(&mut out, cy);
        out.append(") (layer F.CrtYd) (width 0.05))\n");
        out.append("  (fp_line (start -");
        push_mm2(&mut out, cx);
        out.append(" -");
        push_mm2(&mut out, cy);
        out.append(") (end ");
        push_mm2(&mut out, cx);
        out.append(" -");
        push_mm2(&mut out, cy);
        out.append(") (layer F.CrtYd) (width 0.05))\n");
        out.append("  (fp_line (start ");
        push_mm2(&mut out, cx);
        out.append(" -");
        push_mm2(&mut out, cy);
        out.append(") (end ");
        push_mm2(&mut out, cx);
        out.append(" ");
        push_mm2(&mut out, cy);
        out.append(") (layer F.CrtYd) (width 0.05))\n");
        out.append("  (fp_line (start ");
        push_mm2(&mut out, cx);
        out.append(" ");
        push_mm2(&mut out, cy);
        out.append(") (end -");
        push_mm2(&mut out, cx);
        out.append(" ");
        push_mm2(&mut out, cy);
        out.append(") (layer F.CrtYd) (width 0.05))\n");
        let ghost before_pads = out@;
        let ghost pad_models = self@.pads;
        assert(out@ =~= before_pads + spec_pads_text(pad_models.take(0)));
        for i in 0..self.pads.len()
            invariant
                pad_models == self@.pads,
                out@ == before_pads + spec_pads_text(pad_models.take(i as int)),
                forall|k: int|
                    0 <= k < self.pads@.len() ==> (#[trigger] self.pads@[k]).at_x_um > i64::MIN
                        && self.pads@[k].at_y_um > i64::MIN,
        {
            let pad = &self.pads[i];
            proof {
                assert(pad_models[i as int] == self.pads@[i as int]@);
            }
            let block = pad_text(pad);
            out.append(block.as_str());
            proof {
                assert(pad_models.take(i + 1 as int).drop_last() =~= pad_models.take(i as int));
                assert(pad_models.take(i + 1 as int).last() == pad_models[i as int]);
                assert(out@ =~= before_pads + spec_pads_text(pad_models.take(i + 1 as int)));
            }
        }
        proof {
            assert(pad_models.take(pad_models.len() as int) =~= pad_models);
        }
        out.append("  (model ${KICAD6_3DMODEL_DIR}/Resistor_SMD.3dshapes/");
        out.append(self.name.as_str());
        out.append(".wrl\n    (at (xyz 0 0 0))\n    (scale (xyz 1 1 1))\n    (rotate (xyz 0 0 0))\n  )\n)\n");
        proof {
            assert(out@ =~= spec_footprint_text(self@, tedit@));
        }
        out
    }

    /// Renders the footprint file with the current UTC time as its
    /// `tedit` timestamp.  Everything but the timestamp is a function of
    /// the footprint alone.
    pub fn generate_footprint(&self) -> (r: String)
        requires
            self.pads@.len() >= 1,
            self.body_size_x_um / 2 >= self.pads@[0].size_x_um / 2 + 150,
            forall|i: int|
                0 <= i < self.pads@.len() ==> (#[trigger] self.pads@[i]).at_x_um > i64::MIN
                    && self.pads@[i].at_y_um > i64::MIN,
        ensures
            exists|t: Seq<char>| r@ == spec_footprint_text(self@, t) && t.len() >= 14,
    {
        let stamp = utc_stamp_compact();
        let r = self.footprint_text(stamp.as_str());
        proof {
            assert(r@ == spec_footprint_text(self@, stamp@) && stamp@.len() >= 14);
        }
        r
    }
}

/// The current UTC time as a compact `year month day hour minute second`
/// digit string.
///
/// Relies on `chrono::Utc::now` and `DateTime::format` with the
/// `%Y%m%d%H%M%S` pattern: the year prints with at least four digits and
/// the five other fields with exactly two each, so the result is at least
/// fourteen characters long.
#[verifier::external_body]
fn utc_stamp_compact() -> (r: String)
    ensures
        r@.len() >= 14,
{
    chrono::Utc::now().format("%Y%m%d%H%M%S").to_string()
}

} // verus!
