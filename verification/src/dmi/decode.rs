use crate::dmi::table::byte_of;
use crate::dmi::table::decode_byte;
use crate::dmi::table::spec_byte_of;
use crate::dmi::table::spec_flags;
use crate::dmi::table::table0::characteristics_a;
use crate::dmi::table::table0::characteristics_b;
use crate::dmi::table::table0::characteristics_c;
use crate::dmi::table::table0::characteristics_d;
use crate::dmi::table::table0::extension_1;
use crate::dmi::table::table0::extension_2;
use crate::dmi::table::table0::spec_characteristics_a;
use crate::dmi::table::table0::spec_characteristics_b;
use crate::dmi::table::table0::spec_characteristics_c;
use crate::dmi::table::table0::spec_characteristics_d;
use crate::dmi::table::table0::spec_extension_1;
use crate::dmi::table::table0::spec_extension_2;
use crate::dmi::text::push_decimal;
use crate::dmi::text::spec_decimal;
use vstd::prelude::*;
use vstd::string::StringExecFns;

verus! {

/// The heading and the flags of the first extension byte of the BIOS
/// characteristics in `data`.
pub open spec fn spec_raw_extension_byte1(data: Seq<u8>) -> Seq<char> {
    "Decoding BIOS Characteristics Extension byte 1:\n"@ + spec_flags(
        spec_byte_of(data, 18),
        spec_extension_1(),
    )
}

/// The heading and the flags of the second extension byte of the BIOS
/// characteristics in `data`.
pub open spec fn spec_raw_extension_byte2(data: Seq<u8>) -> Seq<char> {
    "Decoding BIOS Characteristics Extension byte 2:\n"@ + spec_flags(
        spec_byte_of(data, 19),
        spec_extension_2(),
    )
}

/// The flags of the four characteristics bytes in `data` and of the
/// extension bytes that the declared length covers: the first is at
/// offset 18, the second at offset 19.
pub open spec fn spec_raw_characteristics(data: Seq<u8>) -> Seq<char> {
    spec_flags(spec_byte_of(data, 0xa), spec_characteristics_a()) + spec_flags(
        spec_byte_of(data, 0xb),
        spec_characteristics_b(),
    ) + spec_flags(spec_byte_of(data, 0xc), spec_characteristics_c()) + spec_flags(
        spec_byte_of(data, 0xd),
        spec_characteristics_d(),
    ) + (if spec_byte_of(data, 1) > 18 {
        spec_raw_extension_byte1(data)
    } else {
        Seq::empty()
    }) + (if spec_byte_of(data, 1) > 19 {
        spec_raw_extension_byte2(data)
    } else {
        Seq::empty()
    })
}

/// The lines on the BIOS characteristics in the bytes `data` of the
/// structure with the name `table`: the name; then one line on the
/// first fault, if the type byte is not zero, the declared length is below
/// 18 or characteristics are not supported; else the flags that are set.
pub open spec fn spec_bios_table(table: Seq<char>, data: Seq<u8>) -> Seq<char> {
    "Printing table "@ + table + "\n"@ + (if spec_byte_of(data, 0) != 0 {
        "Invalid byte 0 in BIOS characteristics table!\n"@
    } else if spec_byte_of(data, 1) < 0x12 {
        "Invalid BIOS characteristics table length "@ + spec_decimal(spec_byte_of(data, 1) as nat)
            + "\n"@
    } else if spec_byte_of(data, 0xa) & 8 != 0 {
        "BIOS Characteristics not supported on this system\n"@
    } else {
        spec_raw_characteristics(data)
    })
}

/// Appends the heading and the flags of the first extension byte.
pub fn decode_bios_extension_byte1(f: &mut String, data: &Vec<u8>)
    ensures
        final(f)@ == old(f)@ + spec_raw_extension_byte1(data@),
{
    let b: u8 = byte_of(data.as_slice(), 18);
    let bit_strings: Vec<(u8, &'static str)> = extension_1();
    f.append("Decoding BIOS Characteristics Extension byte 1:\n");
    decode_byte(f, b, bit_strings.as_slice());
    assert(final(f)@ =~= old(f)@ + spec_raw_extension_byte1(data@));
}

/// Appends the heading and the flags of the second extension byte.
pub fn decode_bios_extension_byte2(f: &mut String, data: &Vec<u8>)
    ensures
        final(f)@ == old(f)@ + spec_raw_extension_byte2(data@),
{
    let b: u8 = byte_of(data.as_slice(), 19);
    let bit_strings: Vec<(u8, &'static str)> = extension_2();
    f.append("Decoding BIOS Characteristics Extension byte 2:\n");
    decode_byte(f, b, bit_strings.as_slice());
    assert(final(f)@ =~= old(f)@ + spec_raw_extension_byte2(data@));
}

/// Appends the flags of the characteristics bytes and of the extension
/// bytes that the declared length covers.
pub fn decode_characteristics(f: &mut String, data: &Vec<u8>)
    ensures
        final(f)@ == old(f)@ + spec_raw_characteristics(data@),
{
    let len: u8 = byte_of(data.as_slice(), 1);
    let a: Vec<(u8, &'static str)> = characteristics_a();
    decode_byte(f, byte_of(data.as_slice(), 0xa), a.as_slice());
    let b: Vec<(u8, &'static str)> = characteristics_b();
    decode_byte(f, byte_of(data.as_slice(), 0xb), b.as_slice());
    let c: Vec<(u8, &'static str)> = characteristics_c();
    decode_byte(f, byte_of(data.as_slice(), 0xc), c.as_slice());
    let d: Vec<(u8, &'static str)> = characteristics_d();
    decode_byte(f, byte_of(data.as_slice(), 0xd), d.as_slice());
    if len > 18 {
        decode_bios_extension_byte1(f, data);
    }
    if len > 19 {
        decode_bios_extension_byte2(f, data);
    }
    assert(final(f)@ =~= old(f)@ + spec_raw_characteristics(data@));
}

/// The lines on the BIOS characteristics in the bytes `data` of the
/// structure with the name `table`.
pub fn print_bios_table(table: &str, data: &Vec<u8>) -> (r: String)
    ensures
        r@ == spec_bios_table(table@, data@),
{
    let mut r: String = String::new();
    r.append("Printing table ");
    r.append(table);
    r.append("\n");
    let len: u8 = byte_of(data.as_slice(), 1);
    if byte_of(data.as_slice(), 0) != 0 {
        r.append("Invalid byte 0 in BIOS characteristics table!\n");
    } else if len < 0x12 {
        r.append("Invalid BIOS characteristics table length ");
        push_decimal(&mut r, len as u64);
        r.append("\n");
    } else if byte_of(data.as_slice(), 0xa) & 8 != 0 {
        r.append("BIOS Characteristics not supported on this system\n");
    } else {
        decode_characteristics(&mut r, data);
    }
    assert(r@ =~= spec_bios_table(table@, data@));
    r
}

} // verus!
