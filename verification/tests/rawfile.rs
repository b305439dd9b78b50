use dmi_decoder::dmi::decode::decode_bios_extension_byte1;
use dmi_decoder::dmi::decode::decode_bios_extension_byte2;
use dmi_decoder::dmi::decode::print_bios_table;
use dmi_decoder::dmi::err::DMIParserError;
use dmi_decoder::dmi::text::push_hex;
use dmi_decoder::raw::decode_bios_raw_table;
use dmi_decoder::raw::print_header_32;
use dmi_decoder::raw::print_header_64;
use dmi_decoder::raw::print_raw_record;
use dmi_decoder::raw::print_strings;
use dmi_decoder::dmi::table::reader::read_null_terminated_string;
use dmi_decoder::raw::RawAction;

fn entry_64() -> Vec<u8> {
    let mut h = vec![0u8; 0x18];
    h[..5].copy_from_slice(b"_SM3_");
    h[6] = 0x18;
    h[7] = 3;
    h[8] = 12;
    h[9] = 0;
    h[0xa] = 1;
    h[0x10..0x18].copy_from_slice(&[1, 2, 3, 4, 5, 6, 7, 8]);
    h
}

#[test]
fn raw_report_of_a_64_bit_entry_point() {
    let mut text = String::new();
    let r = decode_bios_raw_table(&mut text, &entry_64());
    assert!(matches!(r, Ok(RawAction::ReadTables)));
    assert_eq!(
        text,
        "Found a 64 bit header!\n\
         SMBIOS spec version: 3.12.0\n\
         Using SMBIOS 3.0 entrypoint\n\
         Table is at location 0x807060504030201\n"
    );
}

#[test]
fn raw_report_of_a_32_bit_entry_point() {
    let mut h = vec![0u8; 0x1f];
    h[..4].copy_from_slice(b"_SM_");
    let mut text = String::from("> ");
    let r = decode_bios_raw_table(&mut text, &h);
    assert!(matches!(r, Ok(RawAction::Done)));
    assert_eq!(text, "> Found a 32 bit header!\nNot implemented\n");
    let mut text = String::new();
    print_header_32(&mut text, &h);
    assert_eq!(text, "Not implemented\n");
}

#[test]
fn raw_report_of_other_bytes_is_empty() {
    for bytes in [&b""[..], &b"_SM"[..], &b"_DMI_"[..], &b"_SM3"[..]] {
        let mut text = String::new();
        let r = decode_bios_raw_table(&mut text, bytes);
        assert!(matches!(r, Ok(RawAction::Done)));
        assert_eq!(text, "");
    }
}

#[test]
fn raw_report_of_a_faulty_64_bit_entry_point() {
    let mut h = entry_64();
    h[6] = 0x17;
    let mut text = String::new();
    let r = decode_bios_raw_table(&mut text, &h);
    assert!(matches!(r, Err(DMIParserError::HeaderDataError)));
    assert_eq!(text, "Found a 64 bit header!\nGot unexpected header length\n");

    let mut h = entry_64();
    h[0xa] = 7;
    let mut text = String::new();
    let r = print_header_64(&mut text, &h);
    assert!(matches!(r, Err(DMIParserError::HeaderDataError)));
    assert_eq!(text, "SMBIOS spec version: 3.12.0\nUnknown entrypoint revision 7\n");

    let mut text = String::new();
    let r = print_header_64(&mut text, &entry_64()[..0x17]);
    assert!(matches!(r, Err(DMIParserError::HeaderDataError)));
    assert_eq!(text, "Got unexpected header length\n");
}

#[test]
fn raw_record_with_a_zero_type() {
    let mut text = String::new();
    print_raw_record(&mut text, &[0, 9, b'a', b'b', 0, b'c', 0, 0, b'd', 0]);
    assert_eq!(
        text,
        " Header bytes 1 and 2 are: 00 09\nRead a string! ab\nRead a string! c\n"
    );
}

#[test]
fn raw_record_with_another_type_is_skipped_over() {
    let mut text = String::new();
    print_raw_record(&mut text, &[0x1b, 4, b'x', b'y', b'h', b'i', 0, 0]);
    assert_eq!(
        text,
        " Header bytes 1 and 2 are: 1b 04\nSkipping table with ID 1b\nRead a string! hi\n"
    );
    let mut text = String::new();
    print_raw_record(&mut text, &[0x1b, 200, b'x', 0]);
    assert_eq!(text, " Header bytes 1 and 2 are: 1b c8\nSkipping table with ID 1b\n");
}

#[test]
fn raw_record_that_ends_early() {
    let mut text = String::new();
    print_raw_record(&mut text, &[]);
    assert_eq!(text, " Header bytes 1 and 2 are: 00 00\n");
    let mut text = String::new();
    print_raw_record(&mut text, &[0]);
    assert_eq!(text, " Header bytes 1 and 2 are: 00 00\n");
    let mut text = String::new();
    print_raw_record(&mut text, &[0, 0, b'z']);
    assert_eq!(text, " Header bytes 1 and 2 are: 00 00\nRead a string! z\n");
}

#[test]
fn strings_end_at_an_empty_string_or_at_the_end() {
    let mut text = String::new();
    print_strings(&mut text, b"one\0two\0\0three\0", 0);
    assert_eq!(text, "Read a string! one\nRead a string! two\n");
    let mut text = String::new();
    print_strings(&mut text, b"one\0two", 4);
    assert_eq!(text, "Read a string! two\n");
    let mut text = String::new();
    print_strings(&mut text, b"one", 3);
    assert_eq!(text, "");
    let mut text = String::new();
    print_strings(&mut text, b"one", 99);
    assert_eq!(text, "");
    let mut text = String::new();
    print_strings(&mut text, &[0xe9, 0], 0);
    assert_eq!(text, "Read a string! \u{e9}\n");
}

#[test]
fn hexadecimal_numerals() {
    for (n, text) in [
        (0u64, "0"),
        (9, "9"),
        (10, "a"),
        (255, "ff"),
        (256, "100"),
        (0xdead_beef, "deadbeef"),
        (u64::MAX, "ffffffffffffffff"),
    ] {
        let mut r = String::new();
        push_hex(&mut r, n);
        assert_eq!(r, text);
    }
}

fn bios_bytes(len: u8) -> Vec<u8> {
    let mut d = vec![0u8; 24];
    d[1] = len;
    d[0xa] = 0x80;
    d[0xb] = 0x02;
    d[0xc] = 0x01;
    d[0xd] = 0x10;
    d[18] = 0x01;
    d[19] = 0x08 | 0x20;
    d
}

#[test]
fn characteristics_of_raw_bytes() {
    assert_eq!(
        print_bios_table("0-0", &bios_bytes(0x12)),
        "Printing table 0-0\n  \
         + PCI is supported\n  \
         + PnP is supported\n  \
         + Selectable boot is supported\n  \
         + Int 14h: serial services are supported\n"
    );
    assert_eq!(
        print_bios_table("0-0", &bios_bytes(19)),
        "Printing table 0-0\n  \
         + PCI is supported\n  \
         + PnP is supported\n  \
         + Selectable boot is supported\n  \
         + Int 14h: serial services are supported\n\
         Decoding BIOS Characteristics Extension byte 1:\n  \
         + ACPI is supported\n"
    );
    assert_eq!(
        print_bios_table("0-0", &bios_bytes(20)),
        "Printing table 0-0\n  \
         + PCI is supported\n  \
         + PnP is supported\n  \
         + Selectable boot is supported\n  \
         + Int 14h: serial services are supported\n\
         Decoding BIOS Characteristics Extension byte 1:\n  \
         + ACPI is supported\n\
         Decoding BIOS Characteristics Extension byte 2:\n  \
         + UEFI Specification is supported\n"
    );
}

#[test]
fn faults_in_raw_bytes() {
    let mut d = bios_bytes(0x12);
    d[0] = 1;
    assert_eq!(
        print_bios_table("1-0", &d),
        "Printing table 1-0\nInvalid byte 0 in BIOS characteristics table!\n"
    );
    assert_eq!(
        print_bios_table("0-0", &bios_bytes(0x11)),
        "Printing table 0-0\nInvalid BIOS characteristics table length 17\n"
    );
    let mut d = bios_bytes(0x12);
    d[0xa] = 0x88;
    assert_eq!(
        print_bios_table("0-0", &d),
        "Printing table 0-0\nBIOS Characteristics not supported on this system\n"
    );
    assert_eq!(
        print_bios_table("", &vec![]),
        "Printing table \nInvalid BIOS characteristics table length 0\n"
    );
}

#[test]
fn extension_bytes_of_raw_bytes() {
    let mut text = String::new();
    decode_bios_extension_byte1(&mut text, &bios_bytes(24));
    decode_bios_extension_byte2(&mut text, &bios_bytes(24));
    assert_eq!(
        text,
        "Decoding BIOS Characteristics Extension byte 1:\n  \
         + ACPI is supported\n\
         Decoding BIOS Characteristics Extension byte 2:\n  \
         + UEFI Specification is supported\n"
    );
}

#[test]
fn one_string_is_read_up_to_its_zero_byte() {
    let data = b"ab\0cd\0\0e";
    assert_eq!(read_null_terminated_string(data, 0), (String::from("ab"), 3));
    assert_eq!(read_null_terminated_string(data, 1), (String::from("b"), 3));
    assert_eq!(read_null_terminated_string(data, 2), (String::new(), 3));
    assert_eq!(read_null_terminated_string(data, 3), (String::from("cd"), 6));
    assert_eq!(read_null_terminated_string(data, 6), (String::new(), 7));
    assert_eq!(read_null_terminated_string(data, 7), (String::from("e"), 8));
    assert_eq!(read_null_terminated_string(data, 8), (String::new(), 8));
    assert_eq!(read_null_terminated_string(data, 20), (String::new(), 20));
    assert_eq!(read_null_terminated_string(&[0xff, 0], 0), (String::from("\u{ff}"), 2));
}
