use crate::dmi::table::decode_byte;
use crate::dmi::table::fmt_malformed;
use crate::dmi::table::spec_flags;
use crate::dmi::table::spec_malformed;
use crate::dmi::table::Table;
use vstd::prelude::*;
use vstd::string::StringExecFns;

verus! {

/// The feature flags of a baseboard, lowest bit first.
pub open spec fn spec_feature_flags() -> Seq<(u8, &'static str)> {
    seq![
        (1u8, "Board is a hosting board"),
        (2u8, "At least one daughterboard is required"),
        (4u8, "Board is removable"),
        (8u8, "Board is replaceable"),
        (16u8, "Board is hot swappable"),
    ]
}

/// The table of the feature flags of a baseboard.
pub fn feature_flags() -> (v: Vec<(u8, &'static str)>)
    ensures
        v@ == spec_feature_flags(),
{
    let v: Vec<(u8, &'static str)> = vec![
        (1u8, "Board is a hosting board"),
        (2u8, "At least one daughterboard is required"),
        (4u8, "Board is removable"),
        (8u8, "Board is replaceable"),
        (16u8, "Board is hot swappable"),
    ];
    assert(v@ =~= spec_feature_flags());
    v
}

/// The name of a board type, or the text for a code that is not known.
pub open spec fn spec_board_type(code: u8) -> Seq<char> {
    if code == 0x1 {
        "Unknown"@
    } else if code == 0x2 {
        "Other"@
    } else if code == 0x3 {
        "Server Blade"@
    } else if code == 0x4 {
        "Connectivity Switch"@
    } else if code == 0x5 {
        "System Management Module"@
    } else if code == 0x6 {
        "Processor Module"@
    } else if code == 0x7 {
        "I/O Module"@
    } else if code == 0x8 {
        "Memory Module"@
    } else if code == 0x9 {
        "Daughter board"@
    } else if code == 0xa {
        "Motherboard (includes processor, memory, and I/O)"@
    } else if code == 0xb {
        "Processor/Memory Module"@
    } else if code == 0xc {
        "Processor/IO Module"@
    } else if code == 0xd {
        "Interconnect board"@
    } else {
        "Unrecognized value. Probably a bug."@
    }
}

/// Names a board type.
pub fn board_type_name(code: u8) -> (r: &'static str)
    ensures
        r@ == spec_board_type(code),
{
    if code == 0x1 {
        "Unknown"
    } else if code == 0x2 {
        "Other"
    } else if code == 0x3 {
        "Server Blade"
    } else if code == 0x4 {
        "Connectivity Switch"
    } else if code == 0x5 {
        "System Management Module"
    } else if code == 0x6 {
        "Processor Module"
    } else if code == 0x7 {
        "I/O Module"
    } else if code == 0x8 {
        "Memory Module"
    } else if code == 0x9 {
        "Daughter board"
    } else if code == 0xa {
        "Motherboard (includes processor, memory, and I/O)"
    } else if code == 0xb {
        "Processor/Memory Module"
    } else if code == 0xc {
        "Processor/IO Module"
    } else if code == 0xd {
        "Interconnect board"
    } else {
        "Unrecognized value. Probably a bug."
    }
}

impl Table {
    /// The heading of the feature flags and one line for each that is
    /// set.
    pub open spec fn spec_feature_flags_text(&self) -> Seq<char> {
        "Baseboard features:\n"@ + spec_flags(self.spec_byte(0x9), spec_feature_flags())
    }

    /// The line of the board type.
    pub open spec fn spec_board_type_text(&self) -> Seq<char> {
        "Board type: "@ + spec_board_type(self.spec_byte(0xd)) + "\n"@
    }

    /// The five string fields that every version of the structure has.
    pub open spec fn spec_baseboard_strings(&self) -> Seq<char> {
        self.spec_str(4, "Manufacturer"@) + self.spec_str(5, "Product"@) + self.spec_str(
            6,
            "Version"@,
        ) + self.spec_str(7, "Serial"@) + self.spec_str(8, "Asset tag"@)
    }

    /// The feature flags, where the declared length covers their byte at
    /// offset 9.
    pub open spec fn spec_features_part(&self) -> Seq<char> {
        if self.spec_size() > 0x9 {
            self.spec_feature_flags_text()
        } else {
            Seq::empty()
        }
    }

    /// The line of the location in the chassis, where the declared length
    /// covers its index byte at offset 10.
    pub open spec fn spec_location_part(&self) -> Seq<char> {
        if self.spec_size() > 0xa {
            self.spec_str(0xa, "Location in chassis"@)
        } else {
            Seq::empty()
        }
    }

    /// The line of the board type, where the declared length covers its
    /// byte at offset 13.
    pub open spec fn spec_board_type_part(&self) -> Seq<char> {
        if self.spec_size() > 0xd {
            self.spec_board_type_text()
        } else {
            Seq::empty()
        }
    }

    /// The fields of a baseboard structure: the five strings of every
    /// version, which are written for every declared length from 4 on,
    /// then each later field that the declared length covers: the
    /// location in the chassis, the feature flags and the board type.  A
    /// later field that the length does not cover is left out.
    pub open spec fn spec_baseboard_fields(&self) -> Seq<char> {
        self.spec_baseboard_strings() + self.spec_location_part() + self.spec_features_part()
            + self.spec_board_type_part()
    }

    /// The text of a baseboard structure: the heading; then, for a
    /// declared length below the header's size, the report of that and no
    /// field; else the fields.
    pub open spec fn spec_table2(&self) -> Seq<char> {
        "Table 2 (Baseboard Information)\n"@ + (if self.spec_size() < 4 {
            spec_malformed(self.spec_size())
        } else {
            self.spec_baseboard_fields()
        })
    }

    /// Appends the line "Manufacturer".
    pub fn fmt_baseboard_manufacturer(&self, f: &mut String)
        ensures
            final(f)@ == old(f)@ + self.spec_str(4, "Manufacturer"@),
    {
        self.fmt_str(f, 4, "Manufacturer")
    }

    /// Appends the line "Product".
    pub fn fmt_baseboard_product(&self, f: &mut String)
        ensures
            final(f)@ == old(f)@ + self.spec_str(5, "Product"@),
    {
        self.fmt_str(f, 5, "Product")
    }

    /// Appends the line "Version".
    pub fn fmt_baseboard_version(&self, f: &mut String)
        ensures
            final(f)@ == old(f)@ + self.spec_str(6, "Version"@),
    {
        self.fmt_str(f, 6, "Version")
    }

    /// Appends the line "Serial".
    pub fn fmt_baseboard_serial(&self, f: &mut String)
        ensures
            final(f)@ == old(f)@ + self.spec_str(7, "Serial"@),
    {
        self.fmt_str(f, 7, "Serial")
    }

    /// Appends the line "Asset tag".
    pub fn fmt_baseboard_asset_tag(&self, f: &mut String)
        ensures
            final(f)@ == old(f)@ + self.spec_str(8, "Asset tag"@),
    {
        self.fmt_str(f, 8, "Asset tag")
    }

    /// Appends the line "Location in chassis".
    pub fn fmt_board_location(&self, f: &mut String)
        ensures
            final(f)@ == old(f)@ + self.spec_str(0xa, "Location in chassis"@),
    {
        self.fmt_str(f, 0xa, "Location in chassis")
    }

    /// Appends the heading of the feature flags and the flags that are
    /// set.
    pub fn fmt_feature_flags(&self, f: &mut String)
        ensures
            final(f)@ == old(f)@ + self.spec_feature_flags_text(),
    {
        let byte: u8 = self.byte(0x9);
        let bit_strings: Vec<(u8, &'static str)> = feature_flags();
        f.append("Baseboard features:\n");
        decode_byte(f, byte, bit_strings.as_slice());
        assert(final(f)@ =~= old(f)@ + self.spec_feature_flags_text());
    }

    /// Appends the line of the board type.
    pub fn fmt_board_type(&self, f: &mut String)
        ensures
            final(f)@ == old(f)@ + self.spec_board_type_text(),
    {
        let t: &str = board_type_name(self.byte(0xd));
        f.append("Board type: ");
        f.append(t);
        f.append("\n");
        assert(final(f)@ =~= old(f)@ + self.spec_board_type_text());
    }

    /// Appends the five string fields of every version.
    pub fn fmt_baseboard_strings(&self, f: &mut String)
        ensures
            final(f)@ == old(f)@ + self.spec_baseboard_strings(),
    {
        self.fmt_baseboard_manufacturer(f);
        self.fmt_baseboard_product(f);
        self.fmt_baseboard_version(f);
        self.fmt_baseboard_serial(f);
        self.fmt_baseboard_asset_tag(f);
        assert(final(f)@ =~= old(f)@ + self.spec_baseboard_strings());
    }

    /// Appends the fields of a baseboard structure.
    pub fn fmt_baseboard_fields(&self, f: &mut String)
        ensures
            final(f)@ == old(f)@ + self.spec_baseboard_fields(),
    {
        let len: u8 = self.size();
        self.fmt_baseboard_strings(f);
        let ghost strings: Seq<char> = f@;
        if len > 0xa {
            self.fmt_board_location(f);
        }
        let ghost location: Seq<char> = f@;
        assert(location =~= strings + self.spec_location_part());
        if len > 0x9 {
            self.fmt_feature_flags(f);
        }
        let ghost features: Seq<char> = f@;
        assert(features =~= location + self.spec_features_part());
        if len > 0xd {
            self.fmt_board_type(f);
        }
        assert(f@ =~= features + self.spec_board_type_part());
        assert(final(f)@ =~= old(f)@ + self.spec_baseboard_fields());
    }

    /// Appends the text of a baseboard structure.
    pub fn fmt_table2(&self, f: &mut String)
        ensures
            final(f)@ == old(f)@ + self.spec_table2(),
    {
        let len: u8 = self.size();
        f.append("Table 2 (Baseboard Information)\n");
        if len < 4 {
            fmt_malformed(f, len);
        } else {
            self.fmt_baseboard_fields(f);
        }
        assert(final(f)@ =~= old(f)@ + self.spec_table2());
    }
}

/// A baseboard structure whose declared length ends before the feature
/// flags has the heading and the five strings for its text, and nothing
/// that is read from a later byte: no feature flags, no location and no
/// board type.
pub proof fn lemma_baseboard_without_later_fields(t: Table)
    requires
        4 <= t.spec_size() <= 9,
    ensures
        t.spec_table2() == "Table 2 (Baseboard Information)\n"@ + t.spec_baseboard_strings(),
{
    assert(t.spec_baseboard_fields() =~= t.spec_baseboard_strings());
}

} // verus!
