use dmi_decoder::dmi::table::Data;
use dmi_decoder::dmi::table::Table;
use dmi_decoder::dmi::table::TableId;

fn chassis(bits: Vec<u8>, strings: Vec<String>) -> Table {
    Table {
        id: TableId::Chassis,
        data: Data {
            location: 0,
            string_location: 0,
            next_loc: 0,
            bits,
            strings,
        },
    }
}

fn chassis_strings() -> Vec<String> {
    [
        String::from("ACME Widgets, Inc."),
        String::from("1.0"),
        String::from("12345"),
        String::from("my-asset-tag"),
        String::from("my-sku"),
    ]
    .to_vec()
}

#[test]
fn test_decode_table3() {
    let table = chassis(
        [
            3,   //type
            0xd, // length
            42,  // handle
            42,
            1,          // manufacturer string
            128 | 0x11, // type
            2,          // version string
            3,          // serial number string
            4,          // asset tag string
            3,          // boot up state
            3,          // power supply state
            3,          // thermal state
            5,          // security status
            0,
            0,
            0,
            0, // OEM defined DWORD
            2, // height
            2, // number of power cords
            0, // contained element count
            0, // contained element size
            5, // SKU string
        ]
        .to_vec(),
        chassis_strings(),
    );
    let r = table.to_text();
    println!("{}", r);
    assert!(r.contains("Manufacturer: ACME Widgets, Inc."));
    assert!(r.contains("Chassis lock is present"));
    assert!(r.contains("System Enclosure or Chassis Type: Main server chassis"));
    assert!(r.contains("SKU: my-sku"));
    assert!(r.contains("Chassis rack height: 2 U"));
    assert!(r.contains("Number of power cords: 2"));
}

#[test]
fn test_decode_table3_with_contained_elements() {
    let table = chassis(
        [
            3,   //type
            0xd, // length
            42,  // handle
            42,
            1,          // manufacturer string
            128 | 0x11, // type
            2,          // version string
            3,          // serial number string
            4,          // asset tag string
            3,          // boot up state
            3,          // power supply state
            3,          // thermal state
            5,          // security status
            0,
            0,
            0,
            0, // OEM defined DWORD
            2, // height
            2, // number of power cords
            1, // contained element count
            3, // contained element size
            128,
            0,
            0,
            5, // SKU string
        ]
        .to_vec(),
        chassis_strings(),
    );
    let r = table.to_text();
    println!("{}", r);
    assert!(r.contains("Manufacturer: ACME Widgets, Inc."));
    assert!(r.contains("Chassis lock is present"));
    assert!(r.contains("System Enclosure or Chassis Type: Main server chassis"));
    assert!(r.contains("SKU: my-sku"));
    assert!(r.contains("Chassis rack height: 2 U"));
    assert!(r.contains("Number of power cords: 2"));
}

#[test]
fn chassis_text_is_exact() {
    let table = chassis(
        vec![
            3, 0xd, 42, 42, 1, 0x11, 2, 3, 4, 3, 4, 7, 5, 0, 0, 0, 0, 0, 0, 2, 3, 0x83, 0, 0, 0x0a,
            0, 0, 5,
        ],
        chassis_strings(),
    );
    assert_eq!(
        table.to_text(),
        "Table 3 (System Enclosure or Chassis)\n\
         Manufacturer: ACME Widgets, Inc.\n\
         Chassis lock not known to be present\n\
         System Enclosure or Chassis Type: Main server chassis\n\
         Version: 1.0\n\
         Serial Number: 12345\n\
         Asset Tag: my-asset-tag\n\
         System Enclosure or Chassis State: Safe\n\
         Power supply State: Warning\n\
         Thermal State: Unknown chassis state.\n\
         Chassis security status: External interface enabled\n\
         Chassis rack height: Unspecified\n\
         Number of power cords: Unspecified\n\
         Contained elements: 2\n\
         Element length: 3\n\
         Contained element 0 is an SMBIOS structure type 3. Decoding not yet implemented.\n\
         Contained element 1 is an SMBIOS Baseboard type enumeration. Decoding not yet implemented.\n\
         SKU: my-sku\n"
    );
}

#[test]
fn chassis_of_the_first_version_has_the_base_fields_only() {
    let table = chassis(vec![3, 9, 0, 0, 1, 0x25, 2, 3, 4, 3], chassis_strings());
    assert_eq!(
        table.to_text(),
        "Table 3 (System Enclosure or Chassis)\n\
         Manufacturer: ACME Widgets, Inc.\n\
         Chassis lock not known to be present\n\
         System Enclosure or Chassis Type: Unrecognized chassis type. Probably a bug.\n\
         Version: 1.0\n\
         Serial Number: 12345\n\
         Asset Tag: my-asset-tag\n"
    );
}

#[test]
fn chassis_records_below_three_bytes_hold_no_element() {
    let mut bits = vec![0u8; 0x18];
    bits[0x13] = 4;
    bits[0x14] = 2;
    let table = chassis(bits, vec![]);
    let mut r = String::new();
    table.fmt_contained_elements(&mut r);
    assert_eq!(r, "Contained elements: 0\n");
}

#[test]
fn chassis_sku_offset_beyond_the_buffer_reads_as_unspecified() {
    let mut bits = vec![0u8; 0x18];
    bits[0x13] = 255;
    bits[0x14] = 255;
    let table = chassis(bits, vec![String::from("a")]);
    let mut r = String::new();
    table.fmt_chassis_sku(&mut r);
    assert_eq!(r, "SKU: Unspecified\n");
}

#[test]
fn chassis_short_length_is_reported_as_malformed() {
    let table = chassis(vec![3, 0, 0, 0, 1, 1, 1, 1, 1], chassis_strings());
    assert_eq!(
        table.to_text(),
        "Table 3 (System Enclosure or Chassis)\n\
         Malformed structure: declared length 0 is shorter than the header\n"
    );
}

#[test]
fn chassis_security_status_and_states() {
    let mut bits = vec![0u8; 0x16];
    bits[9] = 1;
    bits[0xa] = 6;
    bits[0xb] = 5;
    bits[0xc] = 4;
    let table = chassis(bits, vec![]);
    let mut r = String::new();
    table.fmt_chassis_bootup_state(&mut r);
    table.fmt_chassis_powersupply_state(&mut r);
    table.fmt_chassis_thermal_state(&mut r);
    table.fmt_chassis_security_status(&mut r);
    assert_eq!(
        r,
        "System Enclosure or Chassis State: Other\n\
         Power supply State: Non-recoverable\n\
         Thermal State: Critical\n\
         Chassis security status: External interface locked out\n"
    );
    assert_eq!(table.fmt_state_byte(9), "Other");
    assert_eq!(table.fmt_state_byte(100), "Unknown chassis state.");
}

#[test]
fn chassis_element_offsets() {
    let mut bits = vec![0u8; 0x18];
    bits[0x13] = 3;
    bits[0x14] = 5;
    assert_eq!(chassis(bits.clone(), vec![]).contained_element_offsets(), vec![0x15, 0x1a, 0x1f]);
    bits[0x14] = 2;
    assert_eq!(chassis(bits.clone(), vec![]).contained_element_offsets(), Vec::<usize>::new());
    bits[0x13] = 0;
    bits[0x14] = 9;
    assert_eq!(chassis(bits.clone(), vec![]).contained_element_offsets(), Vec::<usize>::new());
    bits[0x13] = 255;
    bits[0x14] = 255;
    let v = chassis(bits, vec![]).contained_element_offsets();
    assert_eq!(v.len(), 255);
    assert_eq!(v[254], 0x15 + 254 * 255);
}

#[test]
fn chassis_elements_with_a_line_in_the_text() {
    let mut bits = vec![0u8; 0x18];
    bits[1] = 0xd;
    bits[0x13] = 2;
    bits[0x14] = 3;
    let table = chassis(bits.clone(), vec![]);
    assert_eq!(table.decoded_element_offsets(), vec![0x15, 0x18]);
    assert!(table.to_text().contains("Contained element 1 is"));
    bits[1] = 9;
    let table = chassis(bits.clone(), vec![]);
    assert_eq!(table.decoded_element_offsets(), Vec::<usize>::new());
    assert!(!table.to_text().contains("Contained element"));
    bits[1] = 0xd;
    let mut table = chassis(bits, vec![]);
    table.id = dmi_decoder::dmi::table::TableId::Baseboard;
    assert_eq!(table.decoded_element_offsets(), Vec::<usize>::new());
}
