use crate::dmi::err::DecodeError;
use crate::dmi::table::decode_byte;
use crate::dmi::table::spec_flags;
use crate::dmi::table::Table;
use crate::dmi::text::push_decimal;
use crate::dmi::text::push_hex_byte;
use crate::dmi::text::spec_decimal;
use crate::dmi::text::spec_hex_byte;
use vstd::prelude::*;
use vstd::string::StringExecFns;

verus! {

/// The characteristics of the first byte that are decoded.
pub open spec fn spec_characteristics_a() -> Seq<(u8, &'static str)> {
    seq![
        (16u8, "ISA is supported"),
        (32u8, "MCA is supported"),
        (64u8, "EISA is supported"),
        (128u8, "PCI is supported"),
    ]
}

/// The characteristics of the first byte that are decoded.
pub fn characteristics_a() -> (v: Vec<(u8, &'static str)>)
    ensures
        v@ == spec_characteristics_a(),
{
    let v: Vec<(u8, &'static str)> = vec![
        (16u8, "ISA is supported"),
        (32u8, "MCA is supported"),
        (64u8, "EISA is supported"),
        (128u8, "PCI is supported"),
    ];
    assert(v@ =~= spec_characteristics_a());
    v
}

/// The characteristics of the second byte.
pub open spec fn spec_characteristics_b() -> Seq<(u8, &'static str)> {
    seq![
        (1u8, "PCMCI is supported"),
        (2u8, "PnP is supported"),
        (4u8, "APM is supported"),
        (8u8, "BIOS upgrades are supported"),
        (16u8, "BIOS shadowing is allowed"),
        (32u8, "VL-VESA is supported"),
        (64u8, "ESCD support is available"),
        (128u8, "Boot from CD is supported"),
    ]
}

/// The characteristics of the second byte.
pub fn characteristics_b() -> (v: Vec<(u8, &'static str)>)
    ensures
        v@ == spec_characteristics_b(),
{
    let v: Vec<(u8, &'static str)> = vec![
        (1u8, "PCMCI is supported"),
        (2u8, "PnP is supported"),
        (4u8, "APM is supported"),
        (8u8, "BIOS upgrades are supported"),
        (16u8, "BIOS shadowing is allowed"),
        (32u8, "VL-VESA is supported"),
        (64u8, "ESCD support is available"),
        (128u8, "Boot from CD is supported"),
    ];
    assert(v@ =~= spec_characteristics_b());
    v
}

/// The characteristics of the third byte.
pub open spec fn spec_characteristics_c() -> Seq<(u8, &'static str)> {
    seq![
        (1u8, "Selectable boot is supported"),
        (2u8, "BIOS ROM is socketed"),
        (4u8, "Boot from PCMCIA (PC Card) is supported"),
        (8u8, "EDD Specification is supported"),
        (16u8, "Int 13h: NEC 9800 1.2 MB floppy is supported"),
        (32u8, "Int 13h: Toshiba 1.2 MB Floppy is supported"),
        (64u8, "Int 13h: 5.25” 360 KB floppy is supportd"),
        (128u8, "Int 13h: 5.25” 1.2 MB floppy is supported"),
    ]
}

/// The characteristics of the third byte.
pub fn characteristics_c() -> (v: Vec<(u8, &'static str)>)
    ensures
        v@ == spec_characteristics_c(),
{
    let v: Vec<(u8, &'static str)> = vec![
        (1u8, "Selectable boot is supported"),
        (2u8, "BIOS ROM is socketed"),
        (4u8, "Boot from PCMCIA (PC Card) is supported"),
        (8u8, "EDD Specification is supported"),
        (16u8, "Int 13h: NEC 9800 1.2 MB floppy is supported"),
        (32u8, "Int 13h: Toshiba 1.2 MB Floppy is supported"),
        (64u8, "Int 13h: 5.25” 360 KB floppy is supportd"),
        (128u8, "Int 13h: 5.25” 1.2 MB floppy is supported"),
    ];
    assert(v@ =~= spec_characteristics_c());
    v
}

/// The characteristics of the fourth byte.
pub open spec fn spec_characteristics_d() -> Seq<(u8, &'static str)> {
    seq![
        (1u8, "Int 13h: 3.5” / 720 KB floppy services are supported"),
        (2u8, "Int 13h: 3.5” / 2.88 MB floppy services are supported"),
        (4u8, "Int 5h: print screen Service is supported"),
        (8u8, "Int 9h: 8042 keyboard services are supported"),
        (16u8, "Int 14h: serial services are supported"),
        (32u8, "Int 17h: printer services are supported"),
        (64u8, "Int 10h: CGA/Mono Video Services are supported"),
        (128u8, "NEC PC-98"),
    ]
}

/// The characteristics of the fourth byte.
pub fn characteristics_d() -> (v: Vec<(u8, &'static str)>)
    ensures
        v@ == spec_characteristics_d(),
{
    let v: Vec<(u8, &'static str)> = vec![
        (1u8, "Int 13h: 3.5” / 720 KB floppy services are supported"),
        (2u8, "Int 13h: 3.5” / 2.88 MB floppy services are supported"),
        (4u8, "Int 5h: print screen Service is supported"),
        (8u8, "Int 9h: 8042 keyboard services are supported"),
        (16u8, "Int 14h: serial services are supported"),
        (32u8, "Int 17h: printer services are supported"),
        (64u8, "Int 10h: CGA/Mono Video Services are supported"),
        (128u8, "NEC PC-98"),
    ];
    assert(v@ =~= spec_characteristics_d());
    v
}

/// The flags of the first extension byte.
pub open spec fn spec_extension_1() -> Seq<(u8, &'static str)> {
    seq![
        (1u8, "ACPI is supported"),
        (2u8, "USB Legacy is supported"),
        (4u8, "AGP is supported"),
        (8u8, "I2O boot is supported"),
        (16u8, "LS-120 SuperDisk boot is supported"),
        (32u8, "ATAPI ZIP drive boot is supported"),
        (64u8, "1394 boot is supported"),
        (128u8, "Smart battery is supported"),
    ]
}

/// The flags of the first extension byte.
pub fn extension_1() -> (v: Vec<(u8, &'static str)>)
    ensures
        v@ == spec_extension_1(),
{
    let v: Vec<(u8, &'static str)> = vec![
        (1u8, "ACPI is supported"),
        (2u8, "USB Legacy is supported"),
        (4u8, "AGP is supported"),
        (8u8, "I2O boot is supported"),
        (16u8, "LS-120 SuperDisk boot is supported"),
        (32u8, "ATAPI ZIP drive boot is supported"),
        (64u8, "1394 boot is supported"),
        (128u8, "Smart battery is supported"),
    ];
    assert(v@ =~= spec_extension_1());
    v
}

/// The flags of the second extension byte.  The upper three bits are reserved.
pub open spec fn spec_extension_2() -> Seq<(u8, &'static str)> {
    seq![
        (1u8, "BIOS Boot Specification is supported"),
        (2u8, "F-Key initiated network boot is supported"),
        (4u8, "Enable targeted content distribution"),
        (8u8, "UEFI Specification is supported"),
        (16u8, "SMBIOS table describes a virtual machine"),
    ]
}

/// The flags of the second extension byte.  The upper three bits are reserved.
pub fn extension_2() -> (v: Vec<(u8, &'static str)>)
    ensures
        v@ == spec_extension_2(),
{
    let v: Vec<(u8, &'static str)> = vec![
        (1u8, "BIOS Boot Specification is supported"),
        (2u8, "F-Key initiated network boot is supported"),
        (4u8, "Enable targeted content distribution"),
        (8u8, "UEFI Specification is supported"),
        (16u8, "SMBIOS table describes a virtual machine"),
    ];
    assert(v@ =~= spec_extension_2());
    v
}

/// The unit of the extended ROM size, which the two highest bits of its
/// second byte name.
pub open spec fn spec_rom_unit(high: u8) -> Seq<char> {
    if high & 192 == 0 {
        "MB"@
    } else if high & 192 == 64 {
        "GB"@
    } else {
        "Unknown"@
    }
}

impl Table {
    /// Whether the text of a BIOS structure is complete, or why it is
    /// not: a declared length below 18 is invalid, and bit 3 of the first
    /// characteristics byte says that characteristics are not supported.
    pub open spec fn spec_table0_status(&self) -> Result<(), DecodeError> {
        if self.spec_size() < 0x12 {
            Err(DecodeError::InvalidLength)
        } else if self.spec_byte(0xa) & 8 != 0 {
            Err(DecodeError::CharacteristicsUnsupported)
        } else {
            Ok(())
        }
    }

    /// The heading and the handle.
    pub open spec fn spec_bios_heading(&self) -> Seq<char> {
        "BIOS Characteristics\nTable handle is "@ + spec_decimal(self.spec_handle() as nat)
            + "\n"@
    }

    /// The line of the starting address segment, which is left out where
    /// both of its bytes are zero.
    pub open spec fn spec_bios_address(&self) -> Seq<char> {
        if self.spec_byte(7) != 0 || self.spec_byte(6) != 0 {
            "BIOS starts at memory location 0x"@ + spec_hex_byte(self.spec_byte(7))
                + spec_hex_byte(self.spec_byte(6)) + "\n"@
        } else {
            Seq::empty()
        }
    }

    /// The line of the ROM size: 64 kB for each unit of the size byte and
    /// one more, unless the byte is 255.
    pub open spec fn spec_bios_size(&self) -> Seq<char> {
        if self.spec_byte(9) == 0xff {
            "BIOS size is > 16 MB. See Extended BIOS ROM Size for actual size\n"@
        } else {
            "BIOS size is "@ + spec_decimal((64 * (self.spec_byte(9) as int + 1)) as nat)
                + " kB\n"@
        }
    }

    /// The flags of the four characteristics bytes that are decoded.
    pub open spec fn spec_characteristics(&self) -> Seq<char> {
        spec_flags(self.spec_byte(0xa), spec_characteristics_a()) + spec_flags(
            self.spec_byte(0xb),
            spec_characteristics_b(),
        ) + spec_flags(self.spec_byte(0xc), spec_characteristics_c()) + spec_flags(
            self.spec_byte(0xd),
            spec_characteristics_d(),
        )
    }

    /// The heading and the flags of the first extension byte.
    pub open spec fn spec_extension_byte1(&self) -> Seq<char> {
        "BIOS Characteristics Extension byte 1:\n"@ + spec_flags(
            self.spec_byte(18),
            spec_extension_1(),
        )
    }

    /// The heading and the flags of the second extension byte.
    pub open spec fn spec_extension_byte2(&self) -> Seq<char> {
        "BIOS Characteristics Extension byte 2:\n"@ + spec_flags(
            self.spec_byte(19),
            spec_extension_2(),
        )
    }

    /// The heading and the flags of each extension byte that the declared
    /// length covers: the first is at offset 18, the second at offset 19.
    pub open spec fn spec_extensions(&self) -> Seq<char> {
        (if self.spec_size() > 0x12 {
            self.spec_extension_byte1()
        } else {
            Seq::empty()
        }) + (if self.spec_size() > 0x13 {
            self.spec_extension_byte2()
        } else {
            Seq::empty()
        })
    }

    /// The three string fields.
    pub open spec fn spec_bios_strings(&self) -> Seq<char> {
        self.spec_str(4, "BIOS Vendor"@) + self.spec_str(5, "BIOS Version"@) + self.spec_str(
            8,
            "BIOS Release Date"@,
        )
    }

    /// The line of a revision of two bytes, which is left out where one of
    /// them is 255.
    pub open spec fn spec_revision(&self, label: Seq<char>, at: int) -> Seq<char> {
        if self.spec_byte(at) != 0xff && self.spec_byte(at + 1) != 0xff {
            label + ": "@ + spec_decimal(self.spec_byte(at) as nat) + "."@ + spec_decimal(
                self.spec_byte(at + 1) as nat,
            ) + "\n"@
        } else {
            Seq::empty()
        }
    }

    /// The line of the extended ROM size: fourteen bits of size, low byte
    /// first, and the unit.
    pub open spec fn spec_rom_size(&self) -> Seq<char> {
        "BIOS ROM Size: "@ + spec_decimal(
            ((self.spec_byte(0x19) & 63) as int * 256 + self.spec_byte(0x18) as int) as nat,
        ) + " "@ + spec_rom_unit(self.spec_byte(0x19)) + "\n"@
    }

    /// The fields that came with later versions, each where the declared
    /// length covers it: the two revisions, whose bytes are at offsets 20
    /// to 23, and the extended ROM size, whose bytes are at offsets 24 and
    /// 25.
    pub open spec fn spec_bios_later(&self) -> Seq<char> {
        (if self.spec_size() > 0x17 {
            self.spec_revision("BIOS Revision"@, 0x14) + self.spec_revision(
                "Firmware Revision"@,
                0x16,
            )
        } else {
            Seq::empty()
        }) + (if self.spec_size() > 0x19 {
            self.spec_rom_size()
        } else {
            Seq::empty()
        })
    }

    /// The first fields of a faultless BIOS structure: the heading with
    /// the handle, the starting address, the ROM size and the flags of the
    /// characteristics and of their extension bytes.
    pub open spec fn spec_bios_head(&self) -> Seq<char> {
        self.spec_bios_heading() + self.spec_bios_address() + self.spec_bios_size()
            + self.spec_characteristics() + self.spec_extensions()
    }

    /// The fields of a faultless BIOS structure: the first fields, the
    /// three strings, and the fields of the later versions.
    pub open spec fn spec_bios_fields(&self) -> Seq<char> {
        self.spec_bios_head() + self.spec_bios_strings() + self.spec_bios_later()
    }

    /// The text of a BIOS structure.  Where the declared length is below
    /// 18, or characteristics are not supported, it is one sentence that
    /// says so, without a line end, and no field.
    pub open spec fn spec_table0(&self) -> Seq<char> {
        if self.spec_size() < 0x12 {
            "Invalid BIOS characteristics table length "@ + spec_decimal(self.spec_size() as nat)
        } else if self.spec_byte(0xa) & 8 != 0 {
            "BIOS Characteristics not supported on this system"@
        } else {
            self.spec_bios_fields()
        }
    }

    /// Appends the line "BIOS Vendor".
    pub fn fmt_vendor(&self, f: &mut String)
        ensures
            final(f)@ == old(f)@ + self.spec_str(4, "BIOS Vendor"@),
    {
        self.fmt_str(f, 4, "BIOS Vendor")
    }

    /// Appends the line "BIOS Version".
    pub fn fmt_version(&self, f: &mut String)
        ensures
            final(f)@ == old(f)@ + self.spec_str(5, "BIOS Version"@),
    {
        self.fmt_str(f, 5, "BIOS Version")
    }

    /// Appends the line "BIOS Release Date".
    pub fn fmt_date(&self, f: &mut String)
        ensures
            final(f)@ == old(f)@ + self.spec_str(8, "BIOS Release Date"@),
    {
        self.fmt_str(f, 8, "BIOS Release Date")
    }

    /// Appends the heading and the flags of the first extension byte.
    pub fn decode_bios_extension_byte1(&self, f: &mut String)
        ensures
            final(f)@ == old(f)@ + self.spec_extension_byte1(),
    {
        let b: u8 = self.byte(18);
        let bit_strings: Vec<(u8, &'static str)> = extension_1();
        f.append("BIOS Characteristics Extension byte 1:\n");
        decode_byte(f, b, bit_strings.as_slice());
        assert(final(f)@ =~= old(f)@ + self.spec_extension_byte1());
    }

    /// Appends the heading and the flags of the second extension byte.
    pub fn decode_bios_extension_byte2(&self, f: &mut String)
        ensures
            final(f)@ == old(f)@ + self.spec_extension_byte2(),
    {
        let b: u8 = self.byte(19);
        let bit_strings: Vec<(u8, &'static str)> = extension_2();
        f.append("BIOS Characteristics Extension byte 2:\n");
        decode_byte(f, b, bit_strings.as_slice());
        assert(final(f)@ =~= old(f)@ + self.spec_extension_byte2());
    }

    /// Appends the heading and the handle.
    pub fn fmt_bios_heading(&self, f: &mut String)
        ensures
            final(f)@ == old(f)@ + self.spec_bios_heading(),
    {
        f.append("BIOS Characteristics\nTable handle is ");
        push_decimal(f, self.handle() as u64);
        f.append("\n");
        assert(final(f)@ =~= old(f)@ + self.spec_bios_heading());
    }

    /// Appends the line of the starting address segment.
    pub fn fmt_bios_address(&self, f: &mut String)
        ensures
            final(f)@ == old(f)@ + self.spec_bios_address(),
    {
        let high: u8 = self.byte(7);
        let low: u8 = self.byte(6);
        if high != 0 || low != 0 {
            f.append("BIOS starts at memory location 0x");
            push_hex_byte(f, high);
            push_hex_byte(f, low);
            f.append("\n");
        }
        assert(final(f)@ =~= old(f)@ + self.spec_bios_address());
    }

    /// Appends the line of the ROM size.
    pub fn fmt_bios_size(&self, f: &mut String)
        ensures
            final(f)@ == old(f)@ + self.spec_bios_size(),
    {
        let units: u8 = self.byte(9);
        if units == 0xff {
            f.append("BIOS size is > 16 MB. See Extended BIOS ROM Size for actual size\n");
        } else {
            let bios_sz: u64 = 64 * (units as u64 + 1);
            f.append("BIOS size is ");
            push_decimal(f, bios_sz);
            f.append(" kB\n");
            assert(final(f)@ =~= old(f)@ + self.spec_bios_size());
        }
    }

    /// Appends the flags of the four characteristics bytes.
    pub fn fmt_characteristics(&self, f: &mut String)
        ensures
            final(f)@ == old(f)@ + self.spec_characteristics(),
    {
        let a: Vec<(u8, &'static str)> = characteristics_a();
        decode_byte(f, self.byte(0xa), a.as_slice());
        let b: Vec<(u8, &'static str)> = characteristics_b();
        decode_byte(f, self.byte(0xb), b.as_slice());
        let c: Vec<(u8, &'static str)> = characteristics_c();
        decode_byte(f, self.byte(0xc), c.as_slice());
        let d: Vec<(u8, &'static str)> = characteristics_d();
        decode_byte(f, self.byte(0xd), d.as_slice());
        assert(final(f)@ =~= old(f)@ + self.spec_characteristics());
    }

    /// Appends the text of the extension bytes that the length covers.
    pub fn fmt_extensions(&self, f: &mut String)
        ensures
            final(f)@ == old(f)@ + self.spec_extensions(),
    {
        let len: u8 = self.size();
        if len > 0x12 {
            self.decode_bios_extension_byte1(f);
        }
        if len > 0x13 {
            self.decode_bios_extension_byte2(f);
        }
        assert(final(f)@ =~= old(f)@ + self.spec_extensions());
    }

    /// Appends the line of the revision whose two bytes start at `at`.
    pub fn fmt_revision(&self, f: &mut String, label: &str, at: u8)
        ensures
            final(f)@ == old(f)@ + self.spec_revision(label@, at as int),
    {
        let major: u8 = self.byte(at as usize);
        let minor: u8 = self.byte(at as usize + 1);
        if major != 0xff && minor != 0xff {
            f.append(label);
            f.append(": ");
            push_decimal(f, major as u64);
            f.append(".");
            push_decimal(f, minor as u64);
            f.append("\n");
        }
        assert(final(f)@ =~= old(f)@ + self.spec_revision(label@, at as int));
    }

    /// Appends the line of the extended ROM size.
    pub fn fmt_rom_size(&self, f: &mut String)
        ensures
            final(f)@ == old(f)@ + self.spec_rom_size(),
    {
        let high: u8 = self.byte(0x19);
        let low: u8 = self.byte(0x18);
        let unit: &str = if high & 192 == 0 {
            "MB"
        } else if high & 192 == 64 {
            "GB"
        } else {
            "Unknown"
        };
        let sz: u64 = ((high & 63) as u64) * 256 + low as u64;
        f.append("BIOS ROM Size: ");
        push_decimal(f, sz);
        f.append(" ");
        f.append(unit);
        f.append("\n");
        assert(final(f)@ =~= old(f)@ + self.spec_rom_size());
    }

    /// Appends the fields that came with later versions.
    pub fn fmt_bios_later(&self, f: &mut String)
        ensures
            final(f)@ == old(f)@ + self.spec_bios_later(),
    {
        let len: u8 = self.size();
        if len > 0x17 {
            self.fmt_revision(f, "BIOS Revision", 0x14);
            self.fmt_revision(f, "Firmware Revision", 0x16);
        }
        if len > 0x19 {
            self.fmt_rom_size(f);
        }
        assert(final(f)@ =~= old(f)@ + self.spec_bios_later());
    }

    /// Appends the first fields of a faultless BIOS structure.
    pub fn fmt_bios_head(&self, f: &mut String)
        ensures
            final(f)@ == old(f)@ + self.spec_bios_head(),
    {
        self.fmt_bios_heading(f);
        let ghost heading: Seq<char> = f@;
        self.fmt_bios_address(f);
        let ghost address: Seq<char> = f@;
        assert(address =~= old(f)@ + (self.spec_bios_heading() + self.spec_bios_address()));
        self.fmt_bios_size(f);
        let ghost size: Seq<char> = f@;
        assert(size =~= old(f)@ + (self.spec_bios_heading() + self.spec_bios_address()
            + self.spec_bios_size()));
        self.fmt_characteristics(f);
        let ghost flags: Seq<char> = f@;
        assert(flags =~= old(f)@ + (self.spec_bios_heading() + self.spec_bios_address()
            + self.spec_bios_size() + self.spec_characteristics()));
        self.fmt_extensions(f);
        assert(final(f)@ =~= old(f)@ + self.spec_bios_head());
    }

    /// Appends the three string fields.
    pub fn fmt_bios_strings(&self, f: &mut String)
        ensures
            final(f)@ == old(f)@ + self.spec_bios_strings(),
    {
        self.fmt_vendor(f);
        self.fmt_version(f);
        self.fmt_date(f);
        assert(final(f)@ =~= old(f)@ + self.spec_bios_strings());
    }

    /// Appends the fields of a faultless BIOS structure.
    pub fn fmt_bios_fields(&self, f: &mut String)
        ensures
            final(f)@ == old(f)@ + self.spec_bios_fields(),
    {
        self.fmt_bios_head(f);
        self.fmt_bios_strings(f);
        let ghost strings: Seq<char> = f@;
        assert(strings =~= old(f)@ + (self.spec_bios_head() + self.spec_bios_strings()));
        self.fmt_bios_later(f);
        assert(final(f)@ =~= old(f)@ + self.spec_bios_fields());
    }

    /// Appends the text of a BIOS structure and tells whether it is
    /// complete.
    pub fn fmt_table0(&self, f: &mut String) -> (r: Result<(), DecodeError>)
        ensures
            final(f)@ == old(f)@ + self.spec_table0(),
            r == self.spec_table0_status(),
    {
        let len: u8 = self.size();
        if len < 0x12 {
            f.append("Invalid BIOS characteristics table length ");
            push_decimal(f, len as u64);
            assert(final(f)@ =~= old(f)@ + self.spec_table0());
            return Err(DecodeError::InvalidLength);
        }
        if self.byte(0xa) & 8 != 0 {
            f.append("BIOS Characteristics not supported on this system");
            return Err(DecodeError::CharacteristicsUnsupported);
        }
        self.fmt_bios_fields(f);
        Ok(())
    }
}

/// A faultless BIOS structure of the least length, 18, has none of the
/// later fields in its text: no extension byte, no revision and no
/// extended ROM size.
pub proof fn lemma_bios_without_later_fields(t: Table)
    requires
        t.spec_size() == 0x12,
        t.spec_byte(0xa) & 8 == 0,
    ensures
        t.spec_table0() == t.spec_bios_heading() + t.spec_bios_address() + t.spec_bios_size()
            + t.spec_characteristics() + t.spec_bios_strings(),
        t.spec_table0_status() is Ok,
{
    assert(t.spec_bios_fields() =~= t.spec_bios_heading() + t.spec_bios_address()
        + t.spec_bios_size() + t.spec_characteristics() + t.spec_bios_strings());
}

} // verus!
