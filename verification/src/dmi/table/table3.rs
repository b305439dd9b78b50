use crate::dmi::table::fmt_malformed;
use crate::dmi::table::spec_malformed;
use crate::dmi::table::Table;
use crate::dmi::table::TableId;
use crate::dmi::text::push_decimal;
use crate::dmi::text::spec_decimal;
use vstd::prelude::*;
use vstd::string::StringExecFns;

verus! {

/// The name of a chassis type, or the text for a code that is not known.
pub open spec fn spec_chassis_type(code: u8) -> Seq<char> {
    if code == 0x1 {
        "Other"@
    } else if code == 0x2 {
        "Unknown"@
    } else if code == 0x3 {
        "Desktop"@
    } else if code == 0x4 {
        "Low Profile Desktop"@
    } else if code == 0x5 {
        "Pizza Box"@
    } else if code == 0x6 {
        "Mini Tower"@
    } else if code == 0x7 {
        "Tower"@
    } else if code == 0x8 {
        "Portable"@
    } else if code == 0x9 {
        "Laptop"@
    } else if code == 0xa {
        "Notebook"@
    } else if code == 0xb {
        "Handheld"@
    } else if code == 0xc {
        "Docking Station"@
    } else if code == 0xd {
        "All-in-one"@
    } else if code == 0xe {
        "Sub-notebook"@
    } else if code == 0xf {
        "Space-saving"@
    } else if code == 0x10 {
        "Lunch box"@
    } else if code == 0x11 {
        "Main server chassis"@
    } else if code == 0x12 {
        "Expansion chassis"@
    } else if code == 0x13 {
        "SubChassis"@
    } else if code == 0x14 {
        "Bus expansion chassis"@
    } else if code == 0x15 {
        "Peripheral chassis"@
    } else if code == 0x16 {
        "RAID chassis"@
    } else if code == 0x17 {
        "Rack Mount Chassis"@
    } else if code == 0x18 {
        "Sealed-case PC"@
    } else if code == 0x19 {
        "Multi-system chassis"@
    } else if code == 0x1a {
        "Compact PCI"@
    } else if code == 0x1b {
        "Advanced TCA"@
    } else if code == 0x1c {
        "Blade"@
    } else if code == 0x1d {
        "Blade Enclosure"@
    } else if code == 0x1e {
        "Tablet"@
    } else if code == 0x1f {
        "Convertible"@
    } else if code == 0x20 {
        "Detachable"@
    } else if code == 0x21 {
        "IoT Gateway"@
    } else if code == 0x22 {
        "Embedded PC"@
    } else if code == 0x23 {
        "Mini PC"@
    } else if code == 0x24 {
        "Stick PC"@
    } else {
        "Unrecognized chassis type. Probably a bug."@
    }
}

/// Names a chassis type.
pub fn chassis_type_name(code: u8) -> (r: &'static str)
    ensures
        r@ == spec_chassis_type(code),
{
    if code == 0x1 {
        "Other"
    } else if code == 0x2 {
        "Unknown"
    } else if code == 0x3 {
        "Desktop"
    } else if code == 0x4 {
        "Low Profile Desktop"
    } else if code == 0x5 {
        "Pizza Box"
    } else if code == 0x6 {
        "Mini Tower"
    } else if code == 0x7 {
        "Tower"
    } else if code == 0x8 {
        "Portable"
    } else if code == 0x9 {
        "Laptop"
    } else if code == 0xa {
        "Notebook"
    } else if code == 0xb {
        "Handheld"
    } else if code == 0xc {
        "Docking Station"
    } else if code == 0xd {
        "All-in-one"
    } else if code == 0xe {
        "Sub-notebook"
    } else if code == 0xf {
        "Space-saving"
    } else if code == 0x10 {
        "Lunch box"
    } else if code == 0x11 {
        "Main server chassis"
    } else if code == 0x12 {
        "Expansion chassis"
    } else if code == 0x13 {
        "SubChassis"
    } else if code == 0x14 {
        "Bus expansion chassis"
    } else if code == 0x15 {
        "Peripheral chassis"
    } else if code == 0x16 {
        "RAID chassis"
    } else if code == 0x17 {
        "Rack Mount Chassis"
    } else if code == 0x18 {
        "Sealed-case PC"
    } else if code == 0x19 {
        "Multi-system chassis"
    } else if code == 0x1a {
        "Compact PCI"
    } else if code == 0x1b {
        "Advanced TCA"
    } else if code == 0x1c {
        "Blade"
    } else if code == 0x1d {
        "Blade Enclosure"
    } else if code == 0x1e {
        "Tablet"
    } else if code == 0x1f {
        "Convertible"
    } else if code == 0x20 {
        "Detachable"
    } else if code == 0x21 {
        "IoT Gateway"
    } else if code == 0x22 {
        "Embedded PC"
    } else if code == 0x23 {
        "Mini PC"
    } else if code == 0x24 {
        "Stick PC"
    } else {
        "Unrecognized chassis type. Probably a bug."
    }
}

/// The name of a chassis state, or the text for a code that is not
/// known.
pub open spec fn spec_state(code: u8) -> Seq<char> {
    if code == 0x1 {
        "Other"@
    } else if code == 0x2 {
        "Unknown"@
    } else if code == 0x3 {
        "Safe"@
    } else if code == 0x4 {
        "Warning"@
    } else if code == 0x5 {
        "Critical"@
    } else if code == 0x6 {
        "Non-recoverable"@
    } else {
        "Unknown chassis state."@
    }
}

/// The name of a security status, or the text for a code that is not
/// known.
pub open spec fn spec_security_status(code: u8) -> Seq<char> {
    if code == 0x1 {
        "Other"@
    } else if code == 0x2 {
        "Unknown"@
    } else if code == 0x3 {
        "None"@
    } else if code == 0x4 {
        "External interface locked out"@
    } else if code == 0x5 {
        "External interface enabled"@
    } else {
        "Unidentified status"@
    }
}

/// Names a security status.
pub fn security_status_name(code: u8) -> (r: &'static str)
    ensures
        r@ == spec_security_status(code),
{
    if code == 0x1 {
        "Other"
    } else if code == 0x2 {
        "Unknown"
    } else if code == 0x3 {
        "None"
    } else if code == 0x4 {
        "External interface locked out"
    } else if code == 0x5 {
        "External interface enabled"
    } else {
        "Unidentified status"
    }
}

/// A count that is zero when it is not specified: the word for that, or
/// the number followed by `unit`.
pub open spec fn spec_count(n: u8, unit: Seq<char>) -> Seq<char> {
    if n == 0 {
        "Unspecified"@
    } else {
        spec_decimal(n as nat) + unit
    }
}

/// The line of one contained element: of its first byte the highest bit
/// tells a structure type, held in the other seven, from a board type.
pub open spec fn spec_element_line(number: nat, first: u8) -> Seq<char> {
    if first & 128 > 0 {
        "Contained element "@ + spec_decimal(number) + " is an SMBIOS structure type "@
            + spec_decimal((first & 127) as nat) + ". Decoding not yet implemented.\n"@
    } else {
        "Contained element "@ + spec_decimal(number)
            + " is an SMBIOS Baseboard type enumeration. Decoding not yet implemented.\n"@
    }
}

impl Table {
    /// The two lines of the chassis type byte: whether the highest bit
    /// reports a lock, and the type that the other seven bits name.
    pub open spec fn spec_chassis_type_text(&self) -> Seq<char> {
        (if self.spec_byte(5) >> 7 == 1 {
            "Chassis lock is present\n"@
        } else {
            "Chassis lock not known to be present\n"@
        }) + "System Enclosure or Chassis Type: "@ + spec_chassis_type(self.spec_byte(5) & 127)
            + "\n"@
    }

    /// The line of a state field.
    pub open spec fn spec_state_text(&self, label: Seq<char>, index: int) -> Seq<char> {
        label + ": "@ + spec_state(self.spec_byte(index)) + "\n"@
    }

    /// The line of the security status.
    pub open spec fn spec_security_text(&self) -> Seq<char> {
        "Chassis security status: "@ + spec_security_status(self.spec_byte(0xc)) + "\n"@
    }

    /// The line of the rack height.
    pub open spec fn spec_height_text(&self) -> Seq<char> {
        "Chassis rack height: "@ + spec_count(self.spec_byte(0x11), " U"@) + "\n"@
    }

    /// The line of the number of power cords.
    pub open spec fn spec_power_cords_text(&self) -> Seq<char> {
        "Number of power cords: "@ + spec_count(self.spec_byte(0x12), ""@) + "\n"@
    }

    /// The lines of `count` contained elements from number `number` on,
    /// the first of them at offset `at` and each `step` bytes long.
    pub open spec fn spec_elements(&self, number: nat, count: nat, at: int, step: int) -> Seq<
        char,
    >
        decreases count,
    {
        if count == 0 {
            Seq::empty()
        } else {
            spec_element_line(number, self.spec_byte(at)) + self.spec_elements(
                number + 1,
                (count - 1) as nat,
                at + step,
                step,
            )
        }
    }

    /// The text of the contained elements.  Records shorter than three
    /// bytes hold no element.
    pub open spec fn spec_contained_elements(&self) -> Seq<char> {
        let count = self.spec_byte(0x13);
        let length = self.spec_byte(0x14);
        if count == 0 || length < 3 {
            "Contained elements: 0\n"@
        } else {
            "Contained elements: "@ + spec_decimal(count as nat) + "\nElement length: "@
                + spec_decimal(length as nat) + "\n"@ + self.spec_elements(
                0,
                count as nat,
                0x15,
                length as int,
            )
        }
    }

    /// Offset of the SKU's index byte, which follows the contained
    /// elements.
    pub open spec fn spec_sku_offset(&self) -> int {
        0x15 + self.spec_byte(0x13) as int * self.spec_byte(0x14) as int
    }

    /// The fields that a chassis structure has from the first version on.
    pub open spec fn spec_chassis_base(&self) -> Seq<char> {
        self.spec_str(4, "Manufacturer"@) + self.spec_chassis_type_text() + self.spec_str(
            6,
            "Version"@,
        ) + self.spec_str(7, "Serial Number"@) + self.spec_str(8, "Asset Tag"@)
    }

    /// The three states and the security status.
    pub open spec fn spec_chassis_states(&self) -> Seq<char> {
        self.spec_state_text("System Enclosure or Chassis State"@, 9) + self.spec_state_text(
            "Power supply State"@,
            0xa,
        ) + self.spec_state_text("Thermal State"@, 0xb) + self.spec_security_text()
    }

    /// The fields that came after the first version, which are written
    /// together: the three states, the security status, the height, the
    /// power cords, the contained elements and the SKU.  They are written
    /// for every declared length above 9, also where they lie beyond it: a
    /// byte that the structure does not hold reads as zero.
    pub open spec fn spec_chassis_extension(&self) -> Seq<char> {
        self.spec_chassis_states() + self.spec_height_text() + self.spec_power_cords_text()
            + self.spec_contained_elements() + self.spec_str(self.spec_sku_offset(), "SKU"@)
    }

    /// The later fields, for every declared length above 9.
    pub open spec fn spec_chassis_extension_part(&self) -> Seq<char> {
        if self.spec_size() > 0x9 {
            self.spec_chassis_extension()
        } else {
            Seq::empty()
        }
    }

    /// The fields of a chassis structure: those of the first version and,
    /// for every length above 9, the whole group of the later ones.
    pub open spec fn spec_chassis_fields(&self) -> Seq<char> {
        self.spec_chassis_base() + self.spec_chassis_extension_part()
    }

    /// The text of a chassis structure: the heading; then, for a declared
    /// length below the header's size, the report of that and no field;
    /// else the fields.
    pub open spec fn spec_table3(&self) -> Seq<char> {
        "Table 3 (System Enclosure or Chassis)\n"@ + (if self.spec_size() < 4 {
            spec_malformed(self.spec_size())
        } else {
            self.spec_chassis_fields()
        })
    }

    /// Appends the line "Manufacturer".
    pub fn fmt_chassis_manufacturer(&self, f: &mut String)
        ensures
            final(f)@ == old(f)@ + self.spec_str(4, "Manufacturer"@),
    {
        self.fmt_str(f, 4, "Manufacturer")
    }

    /// Appends the two lines of the chassis type byte.
    pub fn decode_chassis_type_byte(&self, f: &mut String)
        ensures
            final(f)@ == old(f)@ + self.spec_chassis_type_text(),
    {
        let b: u8 = self.byte(5);
        if b >> 7 == 1 {
            f.append("Chassis lock is present\n");
        } else {
            f.append("Chassis lock not known to be present\n");
        }
        let t: &str = chassis_type_name(b & 127);
        f.append("System Enclosure or Chassis Type: ");
        f.append(t);
        f.append("\n");
        assert(final(f)@ =~= old(f)@ + self.spec_chassis_type_text());
    }

    /// Appends the line "Version".
    pub fn fmt_chassis_version(&self, f: &mut String)
        ensures
            final(f)@ == old(f)@ + self.spec_str(6, "Version"@),
    {
        self.fmt_str(f, 6, "Version")
    }

    /// Appends the line "Serial Number".
    pub fn fmt_chassis_serial(&self, f: &mut String)
        ensures
            final(f)@ == old(f)@ + self.spec_str(7, "Serial Number"@),
    {
        self.fmt_str(f, 7, "Serial Number")
    }

    /// Appends the line "Asset Tag".
    pub fn fmt_chassis_asset_tag(&self, f: &mut String)
        ensures
            final(f)@ == old(f)@ + self.spec_str(8, "Asset Tag"@),
    {
        self.fmt_str(f, 8, "Asset Tag")
    }

    /// Names the state that the byte at index `b` holds.
    pub fn fmt_state_byte(&self, b: usize) -> (r: &'static str)
        ensures
            r@ == spec_state(self.spec_byte(b as int)),
    {
        let code: u8 = self.byte(b);
        if code == 0x1 {
            "Other"
        } else if code == 0x2 {
            "Unknown"
        } else if code == 0x3 {
            "Safe"
        } else if code == 0x4 {
            "Warning"
        } else if code == 0x5 {
            "Critical"
        } else if code == 0x6 {
            "Non-recoverable"
        } else {
            "Unknown chassis state."
        }
    }

    /// Appends the line of the state field at `index`.
    pub fn fmt_state_line(&self, f: &mut String, label: &str, index: usize)
        ensures
            final(f)@ == old(f)@ + self.spec_state_text(label@, index as int),
    {
        let t: &str = self.fmt_state_byte(index);
        f.append(label);
        f.append(": ");
        f.append(t);
        f.append("\n");
        assert(final(f)@ =~= old(f)@ + self.spec_state_text(label@, index as int));
    }

    /// Appends the line "System Enclosure or Chassis State".
    pub fn fmt_chassis_bootup_state(&self, f: &mut String)
        ensures
            final(f)@ == old(f)@ + self.spec_state_text("System Enclosure or Chassis State"@, 9),
    {
        self.fmt_state_line(f, "System Enclosure or Chassis State", 9)
    }

    /// Appends the line "Power supply State".
    pub fn fmt_chassis_powersupply_state(&self, f: &mut String)
        ensures
            final(f)@ == old(f)@ + self.spec_state_text("Power supply State"@, 0xa),
    {
        self.fmt_state_line(f, "Power supply State", 0xa)
    }

    /// Appends the line "Thermal State".
    pub fn fmt_chassis_thermal_state(&self, f: &mut String)
        ensures
            final(f)@ == old(f)@ + self.spec_state_text("Thermal State"@, 0xb),
    {
        self.fmt_state_line(f, "Thermal State", 0xb)
    }

    /// Appends the line of the security status.
    pub fn fmt_chassis_security_status(&self, f: &mut String)
        ensures
            final(f)@ == old(f)@ + self.spec_security_text(),
    {
        let t: &str = security_status_name(self.byte(0xc));
        f.append("Chassis security status: ");
        f.append(t);
        f.append("\n");
        assert(final(f)@ =~= old(f)@ + self.spec_security_text());
    }

    /// Appends a count, or the word for a count that is not specified.
    pub fn fmt_count(f: &mut String, n: u8, unit: &str)
        ensures
            final(f)@ == old(f)@ + spec_count(n, unit@),
    {
        if n == 0 {
            f.append("Unspecified");
        } else {
            push_decimal(f, n as u64);
            f.append(unit);
            assert(final(f)@ =~= old(f)@ + spec_count(n, unit@));
        }
    }

    /// Appends the line of the rack height.
    pub fn fmt_chassis_height(&self, f: &mut String)
        ensures
            final(f)@ == old(f)@ + self.spec_height_text(),
    {
        f.append("Chassis rack height: ");
        Table::fmt_count(f, self.byte(0x11), " U");
        f.append("\n");
        assert(final(f)@ =~= old(f)@ + self.spec_height_text());
    }

    /// Appends the line of the number of power cords.
    pub fn fmt_chassis_power_cords(&self, f: &mut String)
        ensures
            final(f)@ == old(f)@ + self.spec_power_cords_text(),
    {
        f.append("Number of power cords: ");
        Table::fmt_count(f, self.byte(0x12), "");
        f.append("\n");
        assert(final(f)@ =~= old(f)@ + self.spec_power_cords_text());
    }

    /// Appends the line of one contained element.
    pub fn fmt_element(f: &mut String, number: u8, first: u8)
        ensures
            final(f)@ == old(f)@ + spec_element_line(number as nat, first),
    {
        f.append("Contained element ");
        push_decimal(f, number as u64);
        if first & 128 > 0 {
            f.append(" is an SMBIOS structure type ");
            push_decimal(f, (first & 127) as u64);
            f.append(". Decoding not yet implemented.\n");
        } else {
            f.append(" is an SMBIOS Baseboard type enumeration. Decoding not yet implemented.\n");
        }
        assert(final(f)@ =~= old(f)@ + spec_element_line(number as nat, first));
    }

    /// Appends the text of the contained elements.
    pub fn fmt_contained_elements(&self, f: &mut String)
        ensures
            final(f)@ == old(f)@ + self.spec_contained_elements(),
    {
        let record_cnt: u8 = self.byte(0x13);
        let record_len: u8 = self.byte(0x14);
        if record_cnt == 0 || record_len < 3 {
            f.append("Contained elements: 0\n");
            return ;
        }
        f.append("Contained elements: ");
        push_decimal(f, record_cnt as u64);
        f.append("\nElement length: ");
        push_decimal(f, record_len as u64);
        f.append("\n");
        let ghost head: Seq<char> = f@;
        assert(head =~= old(f)@ + ("Contained elements: "@ + spec_decimal(record_cnt as nat)
            + "\nElement length: "@ + spec_decimal(record_len as nat) + "\n"@));
        let mut i: u8 = 0;
        let mut at: usize = 0x15;
        assert(f@ + self.spec_elements(0, record_cnt as nat, 0x15, record_len as int) =~= head
            + self.spec_elements(0, record_cnt as nat, 0x15, record_len as int));
        while i < record_cnt
            invariant
                i <= record_cnt,
                at <= 0x15 + 255 * (i as int),
                f@ + self.spec_elements(
                    i as nat,
                    (record_cnt - i) as nat,
                    at as int,
                    record_len as int,
                ) == head + self.spec_elements(0, record_cnt as nat, 0x15, record_len as int),
            decreases record_cnt - i,
        {
            let ghost before: Seq<char> = f@;
            let ghost rest: Seq<char> = self.spec_elements(
                (i + 1) as nat,
                (record_cnt - i - 1) as nat,
                at as int + record_len as int,
                record_len as int,
            );
            Table::fmt_element(f, i, self.byte(at));
            assert(f@ + rest =~= before + (spec_element_line(i as nat, self.spec_byte(at as int))
                + rest));
            i = i + 1;
            at = at + record_len as usize;
        }
        assert(f@ + Seq::<char>::empty() =~= f@);
        assert(final(f)@ =~= old(f)@ + self.spec_contained_elements());
    }

    /// The offsets of the contained elements: none where the count is
    /// zero or a record is shorter than three bytes, else one for each
    /// element, the first at offset 21 and each a record's length after
    /// the one before.
    pub open spec fn spec_element_offsets(&self) -> Seq<usize> {
        if self.spec_byte(0x13) == 0 || self.spec_byte(0x14) < 3 {
            Seq::empty()
        } else {
            Seq::new(
                self.spec_byte(0x13) as nat,
                |i: int| (0x15 + i * self.spec_byte(0x14) as int) as usize,
            )
        }
    }

    /// The offsets of the contained elements, in their order.
    pub fn contained_element_offsets(&self) -> (v: Vec<usize>)
        ensures
            v@ == self.spec_element_offsets(),
    {
        let count: u8 = self.byte(0x13);
        let length: u8 = self.byte(0x14);
        let mut v: Vec<usize> = Vec::new();
        if count == 0 || length < 3 {
            return v;
        }
        let mut i: u8 = 0;
        let mut at: usize = 0x15;
        while i < count
            invariant
                i <= count,
                at == 0x15 + i as int * length as int,
                at <= 0x15 + 255 * (i as int),
                v@.len() == i,
                forall|j: int| 0 <= j < i ==> v@[j] == (0x15 + j * length as int) as usize,
            decreases count - i,
        {
            v.push(at);
            assert((i as int + 1) * length as int == i as int * length as int + length as int)
                by (nonlinear_arith);
            i = i + 1;
            at = at + length as usize;
        }
        assert(v@ =~= self.spec_element_offsets());
        v
    }

    /// The offsets of the contained elements that the text of the
    /// structure has a line for: those of a chassis structure whose
    /// declared length is above 9, and none of any other.
    pub open spec fn spec_decoded_element_offsets(&self) -> Seq<usize> {
        if self.id == TableId::Chassis && self.spec_size() > 0x9 {
            self.spec_element_offsets()
        } else {
            Seq::empty()
        }
    }

    /// The offsets of the contained elements that the text of the
    /// structure has a line for, in their order.
    pub fn decoded_element_offsets(&self) -> (v: Vec<usize>)
        ensures
            v@ == self.spec_decoded_element_offsets(),
    {
        match self.id {
            TableId::Chassis => {
                if self.size() > 0x9 {
                    self.contained_element_offsets()
                } else {
                    Vec::new()
                }
            },
            _ => Vec::new(),
        }
    }

    /// Appends the line of the SKU, whose index byte follows the
    /// contained elements.
    pub fn fmt_chassis_sku(&self, f: &mut String)
        ensures
            final(f)@ == old(f)@ + self.spec_str(self.spec_sku_offset(), "SKU"@),
    {
        let count: usize = self.byte(0x13) as usize;
        let length: usize = self.byte(0x14) as usize;
        assert(count * length <= 255 * 255) by (nonlinear_arith)
            requires
                count <= 255,
                length <= 255,
        ;
        let loc: usize = 0x15 + count * length;
        self.fmt_str_at(f, loc, "SKU")
    }

    /// Appends the fields of the first version.
    pub fn fmt_chassis_base(&self, f: &mut String)
        ensures
            final(f)@ == old(f)@ + self.spec_chassis_base(),
    {
        self.fmt_chassis_manufacturer(f);
        self.decode_chassis_type_byte(f);
        self.fmt_chassis_version(f);
        self.fmt_chassis_serial(f);
        self.fmt_chassis_asset_tag(f);
        assert(final(f)@ =~= old(f)@ + self.spec_chassis_base());
    }

    /// Appends the states and the security status.
    pub fn fmt_chassis_states(&self, f: &mut String)
        ensures
            final(f)@ == old(f)@ + self.spec_chassis_states(),
    {
        self.fmt_chassis_bootup_state(f);
        self.fmt_chassis_powersupply_state(f);
        self.fmt_chassis_thermal_state(f);
        self.fmt_chassis_security_status(f);
        assert(final(f)@ =~= old(f)@ + self.spec_chassis_states());
    }

    /// Appends the fields of the later versions.
    pub fn fmt_chassis_extension(&self, f: &mut String)
        ensures
            final(f)@ == old(f)@ + self.spec_chassis_extension(),
    {
        self.fmt_chassis_states(f);
        self.fmt_chassis_height(f);
        self.fmt_chassis_power_cords(f);
        let ghost cords: Seq<char> = f@;
        assert(cords =~= old(f)@ + (self.spec_chassis_states() + self.spec_height_text()
            + self.spec_power_cords_text()));
        self.fmt_contained_elements(f);
        self.fmt_chassis_sku(f);
        assert(final(f)@ =~= old(f)@ + self.spec_chassis_extension());
    }

    /// Appends the fields of a chassis structure.
    pub fn fmt_chassis_fields(&self, f: &mut String)
        ensures
            final(f)@ == old(f)@ + self.spec_chassis_fields(),
    {
        self.fmt_chassis_base(f);
        if self.size() > 0x9 {
            self.fmt_chassis_extension(f);
        }
        assert(final(f)@ =~= old(f)@ + self.spec_chassis_fields());
    }

    /// Appends the text of a chassis structure.
    pub fn fmt_table3(&self, f: &mut String)
        ensures
            final(f)@ == old(f)@ + self.spec_table3(),
    {
        f.append("Table 3 (System Enclosure or Chassis)\n");
        let len: u8 = self.size();
        if len < 4 {
            fmt_malformed(f, len);
        } else {
            self.fmt_chassis_fields(f);
        }
        assert(final(f)@ =~= old(f)@ + self.spec_table3());
    }
}

} // verus!
