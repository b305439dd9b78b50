use crate::dmi::table::fmt_malformed;
use crate::dmi::table::spec_malformed;
use crate::dmi::table::Table;
use crate::dmi::text::push_hex_byte;
use crate::dmi::text::spec_hex_byte;
use vstd::prelude::*;
use vstd::string::StringExecFns;

verus! {

/// The name of a wake-up type, or the text for a code that is not known.
pub open spec fn spec_wake_reason(code: u8) -> Seq<char> {
    if code == 0 {
        "Reserved"@
    } else if code == 1 {
        "Other"@
    } else if code == 2 {
        "Unknown"@
    } else if code == 3 {
        "APM Timer"@
    } else if code == 4 {
        "Modem ring"@
    } else if code == 5 {
        "LAN Remote"@
    } else if code == 6 {
        "Power switch"@
    } else if code == 7 {
        "PCI PME#"@
    } else if code == 8 {
        "AC Power Restored"@
    } else {
        "Unrecognized value. Probably a bug."@
    }
}

/// Names a wake-up type.
pub fn wake_reason_name(code: u8) -> (r: &'static str)
    ensures
        r@ == spec_wake_reason(code),
{
    if code == 0 {
        "Reserved"
    } else if code == 1 {
        "Other"
    } else if code == 2 {
        "Unknown"
    } else if code == 3 {
        "APM Timer"
    } else if code == 4 {
        "Modem ring"
    } else if code == 5 {
        "LAN Remote"
    } else if code == 6 {
        "Power switch"
    } else if code == 7 {
        "PCI PME#"
    } else if code == 8 {
        "AC Power Restored"
    } else {
        "Unrecognized value. Probably a bug."
    }
}

impl Table {
    /// The two hexadecimal digits of the byte at index `i`.
    pub open spec fn spec_hex_at(&self, i: int) -> Seq<char> {
        spec_hex_byte(self.spec_byte(i))
    }

    /// The first three groups of the UUID.  Their bytes are stored low
    /// byte first and are written high byte first.
    pub open spec fn spec_uuid_head(&self) -> Seq<char> {
        self.spec_hex_at(11) + self.spec_hex_at(10) + self.spec_hex_at(9) + self.spec_hex_at(8)
            + "-"@ + self.spec_hex_at(13) + self.spec_hex_at(12) + "-"@ + self.spec_hex_at(15)
            + self.spec_hex_at(14)
    }

    /// The last two groups of the UUID, written in the order in which
    /// their bytes are stored.
    pub open spec fn spec_uuid_tail(&self) -> Seq<char> {
        self.spec_hex_at(16) + self.spec_hex_at(17) + "-"@ + self.spec_hex_at(18)
            + self.spec_hex_at(19) + self.spec_hex_at(20) + self.spec_hex_at(21)
            + self.spec_hex_at(22) + self.spec_hex_at(23)
    }

    /// The line of the UUID.
    pub open spec fn spec_uuid(&self) -> Seq<char> {
        "UUID: "@ + self.spec_uuid_head() + "-"@ + self.spec_uuid_tail() + "\n"@
    }

    /// The line of the wake-up type.
    pub open spec fn spec_wake_text(&self) -> Seq<char> {
        "Wake reason: "@ + spec_wake_reason(self.spec_byte(0x18)) + "\n"@
    }

    /// The four string fields that every version of the structure has.
    pub open spec fn spec_system_strings(&self) -> Seq<char> {
        self.spec_str(4, "System Manufacturer"@) + self.spec_str(5, "Product Name"@)
            + self.spec_str(6, "Product Version"@) + self.spec_str(7, "Product Serial"@)
    }

    /// The four strings of every version, where the declared length
    /// covers them.
    pub open spec fn spec_system_base_part(&self) -> Seq<char> {
        if self.spec_size() >= 8 {
            self.spec_system_strings()
        } else {
            Seq::empty()
        }
    }

    /// SKU and family, where the declared length covers their index bytes
    /// at offsets 25 and 26.
    pub open spec fn spec_system_later_part(&self) -> Seq<char> {
        if self.spec_size() >= 0x1b {
            self.spec_str(0x19, "Product SKU"@) + self.spec_str(0x1a, "Product Family"@)
        } else {
            Seq::empty()
        }
    }

    /// The line of the wake-up type, where the declared length covers its
    /// byte at offset 24.
    pub open spec fn spec_wake_part(&self) -> Seq<char> {
        if self.spec_size() > 0x18 {
            self.spec_wake_text()
        } else {
            Seq::empty()
        }
    }

    /// The line of the UUID, where the declared length covers its bytes
    /// at offsets 8 to 23.
    pub open spec fn spec_uuid_part(&self) -> Seq<char> {
        if self.spec_size() > 0x17 {
            self.spec_uuid()
        } else {
            Seq::empty()
        }
    }

    /// The fields of a system structure, each only where the declared
    /// length covers it: the four strings, SKU and family, the wake-up
    /// type, and the UUID.
    pub open spec fn spec_system_fields(&self) -> Seq<char> {
        self.spec_system_base_part() + self.spec_system_later_part() + self.spec_wake_part()
            + self.spec_uuid_part()
    }

    /// The text of a system structure: the heading; then, for a declared
    /// length below the header's size, the report of that and no field;
    /// else the fields.
    pub open spec fn spec_table1(&self) -> Seq<char> {
        "Table 1 (System Information)\n"@ + (if self.spec_size() < 4 {
            spec_malformed(self.spec_size())
        } else {
            self.spec_system_fields()
        })
    }

    /// Appends the line "System Manufacturer".
    pub fn fmt_manufacturer(&self, f: &mut String)
        ensures
            final(f)@ == old(f)@ + self.spec_str(4, "System Manufacturer"@),
    {
        self.fmt_str(f, 0x04, "System Manufacturer")
    }

    /// Appends the line "Product Name".
    pub fn fmt_product_name(&self, f: &mut String)
        ensures
            final(f)@ == old(f)@ + self.spec_str(5, "Product Name"@),
    {
        self.fmt_str(f, 0x05, "Product Name")
    }

    /// Appends the line "Product Version".
    pub fn fmt_product_version(&self, f: &mut String)
        ensures
            final(f)@ == old(f)@ + self.spec_str(6, "Product Version"@),
    {
        self.fmt_str(f, 0x06, "Product Version")
    }

    /// Appends the line "Product Serial".
    pub fn fmt_product_serial(&self, f: &mut String)
        ensures
            final(f)@ == old(f)@ + self.spec_str(7, "Product Serial"@),
    {
        self.fmt_str(f, 0x07, "Product Serial")
    }

    /// Appends the line "Product SKU".
    pub fn fmt_sku(&self, f: &mut String)
        ensures
            final(f)@ == old(f)@ + self.spec_str(0x19, "Product SKU"@),
    {
        self.fmt_str(f, 0x19, "Product SKU")
    }

    /// Appends the line "Product Family".
    pub fn fmt_family(&self, f: &mut String)
        ensures
            final(f)@ == old(f)@ + self.spec_str(0x1a, "Product Family"@),
    {
        self.fmt_str(f, 0x1a, "Product Family")
    }

    /// Appends the hexadecimal digits of the byte at index `i`.
    pub fn fmt_hex_at(&self, f: &mut String, i: usize)
        ensures
            final(f)@ == old(f)@ + self.spec_hex_at(i as int),
    {
        push_hex_byte(f, self.byte(i));
    }

    /// Appends the first three groups of the UUID.
    pub fn fmt_uuid_head(&self, f: &mut String)
        ensures
            final(f)@ == old(f)@ + self.spec_uuid_head(),
    {
        self.fmt_hex_at(f, 11);
        self.fmt_hex_at(f, 10);
        self.fmt_hex_at(f, 9);
        self.fmt_hex_at(f, 8);
        f.append("-");
        self.fmt_hex_at(f, 13);
        self.fmt_hex_at(f, 12);
        f.append("-");
        self.fmt_hex_at(f, 15);
        self.fmt_hex_at(f, 14);
        assert(final(f)@ =~= old(f)@ + self.spec_uuid_head());
    }

    /// Appends the last two groups of the UUID.
    pub fn fmt_uuid_tail(&self, f: &mut String)
        ensures
            final(f)@ == old(f)@ + self.spec_uuid_tail(),
    {
        self.fmt_hex_at(f, 16);
        self.fmt_hex_at(f, 17);
        f.append("-");
        self.fmt_hex_at(f, 18);
        self.fmt_hex_at(f, 19);
        self.fmt_hex_at(f, 20);
        self.fmt_hex_at(f, 21);
        self.fmt_hex_at(f, 22);
        self.fmt_hex_at(f, 23);
        assert(final(f)@ =~= old(f)@ + self.spec_uuid_tail());
    }

    /// Appends the line of the UUID.
    pub fn fmt_uuid(&self, f: &mut String)
        ensures
            final(f)@ == old(f)@ + self.spec_uuid(),
    {
        f.append("UUID: ");
        self.fmt_uuid_head(f);
        f.append("-");
        self.fmt_uuid_tail(f);
        f.append("\n");
        assert(final(f)@ =~= old(f)@ + self.spec_uuid());
    }

    /// Appends the line of the wake-up type.
    pub fn fmt_wake_reason(&self, f: &mut String)
        ensures
            final(f)@ == old(f)@ + self.spec_wake_text(),
    {
        f.append("Wake reason: ");
        f.append(wake_reason_name(self.byte(0x18)));
        f.append("\n");
        assert(final(f)@ =~= old(f)@ + self.spec_wake_text());
    }

    /// Appends the four strings of every version.
    pub fn fmt_system_strings(&self, f: &mut String)
        ensures
            final(f)@ == old(f)@ + self.spec_system_strings(),
    {
        self.fmt_manufacturer(f);
        self.fmt_product_name(f);
        self.fmt_product_version(f);
        self.fmt_product_serial(f);
        assert(final(f)@ =~= old(f)@ + self.spec_system_strings());
    }

    /// Appends SKU and family.
    pub fn fmt_system_later(&self, f: &mut String)
        ensures
            final(f)@ == old(f)@ + (self.spec_str(0x19, "Product SKU"@) + self.spec_str(
                0x1a,
                "Product Family"@,
            )),
    {
        self.fmt_sku(f);
        self.fmt_family(f);
        assert(final(f)@ =~= old(f)@ + (self.spec_str(0x19, "Product SKU"@) + self.spec_str(
            0x1a,
            "Product Family"@,
        )));
    }

    /// Appends the fields of a system structure.
    pub fn fmt_system_fields(&self, f: &mut String)
        ensures
            final(f)@ == old(f)@ + self.spec_system_fields(),
    {
        let len: u8 = self.size();
        if len >= 8 {
            self.fmt_system_strings(f);
        }
        let ghost base: Seq<char> = f@;
        assert(base =~= old(f)@ + self.spec_system_base_part());
        if len >= 0x1b {
            self.fmt_system_later(f);
        }
        let ghost later: Seq<char> = f@;
        assert(later =~= base + self.spec_system_later_part());
        if len > 0x18 {
            self.fmt_wake_reason(f);
        }
        let ghost wake: Seq<char> = f@;
        assert(wake =~= later + self.spec_wake_part());
        if len > 0x17 {
            self.fmt_uuid(f);
        }
        assert(f@ =~= wake + self.spec_uuid_part());
        assert(final(f)@ =~= old(f)@ + self.spec_system_fields());
    }

    /// Appends the text of a system structure.
    pub fn fmt_table1(&self, f: &mut String)
        ensures
            final(f)@ == old(f)@ + self.spec_table1(),
    {
        f.append("Table 1 (System Information)\n");
        let len: u8 = self.size();
        if len < 4 {
            fmt_malformed(f, len);
        } else {
            self.fmt_system_fields(f);
        }
        assert(final(f)@ =~= old(f)@ + self.spec_table1());
    }
}

/// A system structure whose declared length covers the four strings and
/// ends inside the UUID has the heading and the four strings for its
/// text, and nothing that is read from a later byte.
pub proof fn lemma_system_without_later_fields(t: Table)
    requires
        8 <= t.spec_size() <= 0x17,
    ensures
        t.spec_table1() == "Table 1 (System Information)\n"@ + t.spec_system_strings(),
{
    assert(t.spec_system_fields() =~= t.spec_system_strings());
}

} // verus!
