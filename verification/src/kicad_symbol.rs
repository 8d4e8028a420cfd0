//! The KiCad symbol backend.
//!
//! One S-expression `symbol` block per component, with the standard
//! properties (Reference, Value, Footprint, Datasheet, keywords,
//! description, footprint filter) and, when manufacturer data is present,
//! five hidden manufacturer properties.  Two body styles render the same
//! property set with a different graphic: `european` draws the bounding
//! rectangle, `american` the zig-zag polyline; any other style name falls
//! back to the european body.  The library wrapper adds the fixed
//! `kicad_symbol_lib` header and closes the list.

use vstd::prelude::*;
use vstd::string::*;
use crate::str_eq;

verus! {

/// One KiCad schematic symbol, field for field what its block renders.
#[derive(Clone, Debug)]
pub struct KicadSymbol {
    pub name: String,
    pub reference: String,
    pub value: String,
    pub footprint: String,
    pub datasheet: String,
    pub keywords: String,
    pub description: String,
    pub symbol_style: String,
    pub manufacturer: String,
    pub mpn: String,
    pub supplier: String,
    pub supplier_pn: String,
    pub supplier_url: String,
}

/// The mathematical content of a [`KicadSymbol`].
#[verifier::ext_equal]
pub ghost struct SymbolModel {
    pub name: Seq<char>,
    pub reference: Seq<char>,
    pub value: Seq<char>,
    pub footprint: Seq<char>,
    pub datasheet: Seq<char>,
    pub keywords: Seq<char>,
    pub description: Seq<char>,
    pub symbol_style: Seq<char>,
    pub manufacturer: Seq<char>,
    pub mpn: Seq<char>,
    pub supplier: Seq<char>,
    pub supplier_pn: Seq<char>,
    pub supplier_url: Seq<char>,
}

impl View for KicadSymbol {
    type V = SymbolModel;

    open spec fn view(&self) -> SymbolModel {
        SymbolModel {
            name: self.name@,
            reference: self.reference@,
            value: self.value@,
            footprint: self.footprint@,
            datasheet: self.datasheet@,
            keywords: self.keywords@,
            description: self.description@,
            symbol_style: self.symbol_style@,
            manufacturer: self.manufacturer@,
            mpn: self.mpn@,
            supplier: self.supplier@,
            supplier_pn: self.supplier_pn@,
            supplier_url: self.supplier_url@,
        }
    }
}

/// The european body: a bounding rectangle.
pub open spec fn spec_european_geometry() -> Seq<char> {
    "      (rectangle (start -1.016 -2.54) (end 1.016 2.54)\n        (stroke (width 0.254) (type default) (color 0 0 0 0))\n        (fill (type none))\n      )"@
}

/// The american body: a zig-zag polyline.
pub open spec fn spec_american_geometry() -> Seq<char> {
    "      (polyline\n        (pts\n          (xy 0 -2.54)\n          (xy 0.635 -1.905)\n          (xy -0.635 -0.635)\n          (xy 0.635 0.635)\n          (xy -0.635 1.905)\n          (xy 0 2.54)\n        )\n        (stroke (width 0.254) (type default) (color 0 0 0 0))\n        (fill (type none))\n      )"@
}

/// The body graphic a style name selects: `american` draws the polyline,
/// every other name the rectangle.
pub open spec fn spec_geometry(style: Seq<char>) -> Seq<char> {
    if style == "american"@ {
        spec_american_geometry()
    } else {
        spec_european_geometry()
    }
}

/// The hidden manufacturer property block, present only when the
/// manufacturer field is non-empty.
pub open spec fn spec_mfr_properties(m: SymbolModel) -> Seq<char> {
    if m.manufacturer.len() == 0 {
        Seq::empty()
    } else {
        "\n    (property \"Manufacturer\" \""@ + m.manufacturer
            + "\" (id 7) (at 0 0 0)\n      (effects (font (size 1.27 1.27)) hide)\n    )\n    (property \"MPN\" \""@
            + m.mpn
            + "\" (id 8) (at 0 0 0)\n      (effects (font (size 1.27 1.27)) hide)\n    )\n    (property \"Supplier\" \""@
            + m.supplier
            + "\" (id 9) (at 0 0 0)\n      (effects (font (size 1.27 1.27)) hide)\n    )\n    (property \"SupplierPN\" \""@
            + m.supplier_pn
            + "\" (id 10) (at 0 0 0)\n      (effects (font (size 1.27 1.27)) hide)\n    )\n    (property \"SupplierURL\" \""@
            + m.supplier_url
            + "\" (id 11) (at 0 0 0)\n      (effects (font (size 1.27 1.27)) hide)\n    )"@
    }
}

/// The whole symbol block of one component.
pub open spec fn spec_symbol_text(m: SymbolModel) -> Seq<char> {
    "  (symbol \""@ + m.name
        + "\" (pin_numbers hide) (pin_names (offset 0)) (in_bom yes) (on_board yes)\n    (property \"Reference\" \""@
        + m.reference
        + "\" (id 0) (at 2.032 0 90)\n      (effects (font (size 1.27 1.27)))\n    )\n    (property \"Value\" \""@
        + m.value
        + "\" (id 1) (at 0 0 90)\n      (effects (font (size 1.27 1.27)))\n    )\n    (property \"Footprint\" \""@
        + m.footprint
        + "\" (id 2) (at -1.778 0 90)\n      (effects (font (size 1.27 1.27)) hide)\n    )\n    (property \"Datasheet\" \""@
        + m.datasheet
        + "\" (id 3) (at 0 0 0)\n      (effects (font (size 1.27 1.27)) hide)\n    )\n    (property \"ki_keywords\" \""@
        + m.keywords
        + "\" (id 4) (at 0 0 0)\n      (effects (font (size 1.27 1.27)) hide)\n    )\n    (property \"ki_description\" \""@
        + m.description
        + "\" (id 5) (at 0 0 0)\n      (effects (font (size 1.27 1.27)) hide)\n    )\n    (property \"ki_fp_filters\" \"R_*\" (id 6) (at 0 0 0)\n      (effects (font (size 1.27 1.27)) hide)\n    )"@
        + spec_mfr_properties(m) + "\n    (symbol \""@ + m.name + "_0_1\"\n"@ + spec_geometry(
        m.symbol_style,
    ) + "\n    )\n    (symbol \""@ + m.name
        + "_1_1\"\n      (pin passive line (at 0 3.81 270) (length 1.27)\n        (name \"~\" (effects (font (size 1.27 1.27))))\n        (number \"1\" (effects (font (size 1.27 1.27))))\n      )\n      (pin passive line (at 0 -3.81 90) (length 1.27)\n        (name \"~\" (effects (font (size 1.27 1.27))))\n        (number \"2\" (effects (font (size 1.27 1.27))))\n      )\n    )\n  )"@
}

impl KicadSymbol {
    /// A symbol with the standard resistor fields: reference `R`, no
    /// datasheet, the stock keywords, and a description derived from the
    /// value.  Manufacturer fields start empty.
    pub fn new(name: String, value: String, footprint: String, style: &str) -> (r: KicadSymbol)
        ensures
            r@.name == name@,
            r@.reference == "R"@,
            r@.value == value@,
            r@.footprint == footprint@,
            r@.datasheet == "~"@,
            r@.keywords == "R res resistor"@,
            r@.description == "Resistor, "@ + value@,
            r@.symbol_style == style@,
            r@.manufacturer == Seq::<char>::empty(),
            r@.mpn == Seq::<char>::empty(),
            r@.supplier == Seq::<char>::empty(),
            r@.supplier_pn == Seq::<char>::empty(),
            r@.supplier_url == Seq::<char>::empty(),
    {
        let mut description = String::from_str("Resistor, ");
        description.append(value.as_str());
        KicadSymbol {
            name,
            reference: String::from_str("R"),
            value,
            footprint,
            datasheet: String::from_str("~"),
            keywords: String::from_str("R res resistor"),
            description,
            symbol_style: String::from_str(style),
            manufacturer: String::new(),
            mpn: String::new(),
            supplier: String::new(),
            supplier_pn: String::new(),
            supplier_url: String::new(),
        }
    }

    /// The same symbol with the five manufacturer fields filled in.
    pub fn with_manufacturer_info(
        self,
        manufacturer: String,
        mpn: String,
        supplier: String,
        supplier_pn: String,
        supplier_url: String,
    ) -> (r: KicadSymbol)
        ensures
            r@ == (SymbolModel {
                manufacturer: manufacturer@,
                mpn: mpn@,
                supplier: supplier@,
                supplier_pn: supplier_pn@,
                supplier_url: supplier_url@,
                ..self@
            }),
    {
        let mut s = self;
        s.manufacturer = manufacturer;
        s.mpn = mpn;
        s.supplier = supplier;
        s.supplier_pn = supplier_pn;
        s.supplier_url = supplier_url;
        s
    }

    /// Renders the symbol block.
    pub fn generate_symbol(&self) -> (r: String)
        ensures
            r@ == spec_symbol_text(self@),
    {
        let mut out = String::from_str("  (symbol \"");
        out.append(self.name.as_str());
        out.append(
            "\" (pin_numbers hide) (pin_names (offset 0)) (in_bom yes) (on_board yes)\n    (property \"Reference\" \"",
        );
        out.append(self.reference.as_str());
        out.append(
            "\" (id 0) (at 2.032 0 90)\n      (effects (font (size 1.27 1.27)))\n    )\n    (property \"Value\" \"",
        );
        out.append(self.value.as_str());
        out.append(
            "\" (id 1) (at 0 0 90)\n      (effects (font (size 1.27 1.27)))\n    )\n    (property \"Footprint\" \"",
        );
        out.append(self.footprint.as_str());
        out.append(
            "\" (id 2) (at -1.778 0 90)\n      (effects (font (size 1.27 1.27)) hide)\n    )\n    (property \"Datasheet\" \"",
        );
        out.append(self.datasheet.as_str());
        out.append(
            "\" (id 3) (at 0 0 0)\n      (effects (font (size 1.27 1.27)) hide)\n    )\n    (property \"ki_keywords\" \"",
        );
        out.append(self.keywords.as_str());
        out.append(
            "\" (id 4) (at 0 0 0)\n      (effects (font (size 1.27 1.27)) hide)\n    )\n    (property \"ki_description\" \"",
        );
        out.append(self.description.as_str());
        out.append(
            "\" (id 5) (at 0 0 0)\n      (effects (font (size 1.27 1.27)) hide)\n    )\n    (property \"ki_fp_filters\" \"R_*\" (id 6) (at 0 0 0)\n      (effects (font (size 1.27 1.27)) hide)\n    )",
        );
        if !self.manufacturer.as_str().is_empty() {
            out.append("\n    (property \"Manufacturer\" \"");
            out.append(self.manufacturer.as_str());
            out.append(
                "\" (id 7) (at 0 0 0)\n      (effects (font (size 1.27 1.27)) hide)\n    )\n    (property \"MPN\" \"",
            );
            out.append(self.mpn.as_str());
            out.append(
                "\" (id 8) (at 0 0 0)\n      (effects (font (size 1.27 1.27)) hide)\n    )\n    (property \"Supplier\" \"",
            );
            out.append(self.supplier.as_str());
            out.append(
                "\" (id 9) (at 0 0 0)\n      (effects (font (size 1.27 1.27)) hide)\n    )\n    (property \"SupplierPN\" \"",
            );
            out.append(self.supplier_pn.as_str());
            out.append(
                "\" (id 10) (at 0 0 0)\n      (effects (font (size 1.27 1.27)) hide)\n    )\n    (property \"SupplierURL\" \"",
            );
            out.append(self.supplier_url.as_str());
            out.append(
                "\" (id 11) (at 0 0 0)\n      (effects (font (size 1.27 1.27)) hide)\n    )",
            );
        }
        out.append("\n    (symbol \"");
        out.append(self.name.as_str());
        out.append("_0_1\"\n");
        if str_eq(self.symbol_style.as_str(), "american") {
            out.append(
                "      (polyline\n        (pts\n          (xy 0 -2.54)\n          (xy 0.635 -1.905)\n          (xy -0.635 -0.635)\n          (xy 0.635 0.635)\n          (xy -0.635 1.905)\n          (xy 0 2.54)\n        )\n        (stroke (width 0.254) (type default) (color 0 0 0 0))\n        (fill (type none))\n      )",
            );
        } else {
            out.append(
                "      (rectangle (start -1.016 -2.54) (end 1.016 2.54)\n        (stroke (width 0.254) (type default) (color 0 0 0 0))\n        (fill (type none))\n      )",
            );
        }
        out.append("\n    )\n    (symbol \"");
        out.append(self.name.as_str());
        out.append(
            "_1_1\"\n      (pin passive line (at 0 3.81 270) (length 1.27)\n        (name \"~\" (effects (font (size 1.27 1.27))))\n        (number \"1\" (effects (font (size 1.27 1.27))))\n      )\n      (pin passive line (at 0 -3.81 90) (length 1.27)\n        (name \"~\" (effects (font (size 1.27 1.27))))\n        (number \"2\" (effects (font (size 1.27 1.27))))\n      )\n    )\n  )",
        );
        proof {
            assert(out@ =~= spec_symbol_text(self@));
        }
        out
    }
}

/// A collection of symbols rendered as one library file.
pub struct KicadSymbolLib {
    pub symbols: Vec<KicadSymbol>,
}

/// The models of a sequence of symbols.
pub open spec fn symbol_models(s: Seq<KicadSymbol>) -> Seq<SymbolModel> {
    s.map_values(|x: KicadSymbol| x@)
}

/// The symbol blocks of a library, each followed by a line break.
pub open spec fn spec_symbol_blocks(ms: Seq<SymbolModel>) -> Seq<char>
    decreases ms.len(),
{
    if ms.len() == 0 {
        Seq::empty()
    } else {
        spec_symbol_blocks(ms.drop_last()) + spec_symbol_text(ms.last()) + "\n"@
    }
}

/// The whole library file: the fixed header, the symbol blocks, and the
/// closing parenthesis.
pub open spec fn spec_library_text(ms: Seq<SymbolModel>) -> Seq<char> {
    "(kicad_symbol_lib (version 20211014) (generator atlantix-eda)\n"@ + spec_symbol_blocks(ms)
        + ")\n"@
}

impl KicadSymbolLib {
    /// An empty library.
    pub fn new() -> (r: KicadSymbolLib)
        ensures
            r.symbols@.len() == 0,
    {
        KicadSymbolLib { symbols: Vec::new() }
    }

    /// Appends one symbol to the library.
    pub fn add_symbol(&mut self, symbol: KicadSymbol)
        ensures
            final(self).symbols@ == old(self).symbols@.push(symbol),
    {
        self.symbols.push(symbol);
    }

    /// Renders the whole library file.
    pub fn generate_library(&self) -> (r: String)
        ensures
            r@ == spec_library_text(symbol_models(self.symbols@)),
    {
        let ghost ms = symbol_models(self.symbols@);
        let mut out = String::from_str(
            "(kicad_symbol_lib (version 20211014) (generator atlantix-eda)\n",
        );
        let ghost header = "(kicad_symbol_lib (version 20211014) (generator atlantix-eda)\n"@;
        assert(out@ =~= header + spec_symbol_blocks(ms.take(0)));
        for i in 0..self.symbols.len()
            invariant
                ms == symbol_models(self.symbols@),
                out@ == header + spec_symbol_blocks(ms.take(i as int)),
                header == "(kicad_symbol_lib (version 20211014) (generator atlantix-eda)\n"@,
        {
            let block = self.symbols[i].generate_symbol();
            out.append(block.as_str());
            out.append("\n");
            proof {
                assert(self.symbols@[i as int]@ == ms[i as int]);
                assert(ms.take(i + 1 as int).drop_last() =~= ms.take(i as int));
                assert(ms.take(i + 1 as int).last() == ms[i as int]);
                assert(out@ =~= header + spec_symbol_blocks(ms.take(i + 1 as int)));
            }
        }
        out.append(")\n");
        proof {
            assert(ms.take(ms.len() as int) =~= ms);
            assert(out@ =~= spec_library_text(ms));
        }
        out
    }
}

} // verus!
