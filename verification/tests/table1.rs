use dmi_decoder::dmi::table::Data;
use dmi_decoder::dmi::table::Table;
use dmi_decoder::dmi::table::TableId;

fn system(bits: Vec<u8>, strings: Vec<String>) -> Table {
    Table {
        id: TableId::System,
        data: Data {
            location: 0,
            string_location: 0,
            next_loc: 0,
            bits,
            strings,
        },
    }
}

#[test]
// table with no meaningful data at all. sign of a buggy firmware
fn test_empty_table() {
    let table = system([].to_vec(), [].to_vec());
    let r = table.to_text();
    println!("{}", r);
    // Product name is in all versions:
    assert!(r.contains("Table 1 (System Information)"));
    assert!(!r.contains("Product Name"));
    // Product family is v2.4 extension
    assert!(!r.contains("Product Family"));
}

// table with data, but all zero. more buggy firmware
#[test]
fn table1_test_zero_table() {
    let table = system(
        [0, 0, 0, 0, 0, 0, 0, 0].to_vec(),
        [
            String::from(""),
            String::from(""),
            String::from(""),
            String::from(""),
            String::from(""),
            String::from(""),
            String::from(""),
            String::from(""),
        ]
        .to_vec(),
    );
    let r = table.to_text();
    println!("{}", r);
    // Product name is in all versions:
    assert!(r.contains("Table 1 (System Information)"));
    assert!(!r.contains("Product Name"));
    // Product family is v2.4 extension
    assert!(!r.contains("Product Family"));
}

#[test]
fn table1_test_manufacturer() {
    let table = system(
        // bits[4] points to the manufacturer string
        [1, 8, 0, 0, 2, 0, 0, 0].to_vec(),
        [String::from(""), String::from("ACME Widgets, Inc.")].to_vec(),
    );
    let r = table.to_text();
    println!("{}", r);
    assert!(r.contains("System Manufacturer: ACME Widgets, Inc."));
}

#[test]
fn table1_test_string_index_out_of_range() {
    let table = system(
        // bits[5] should point to the product name string...
        [0, 8, 0, 0, 0, 100, 0, 0].to_vec(),
        // but strings[100] is out of bounds:
        [String::from("")].to_vec(),
    );
    let r = table.to_text();
    println!("{}", r);
    assert!(r.contains("Product Name: String index out of range. Buggy firmware?"));
}

#[test]
fn test_v2_table() {
    let table = system(
        [1, 8, 0, 0, 1, 2, 3, 4].to_vec(),
        [
            String::from("test manufacturer"),
            String::from("test name"),
            String::from("test version"),
            String::from("test serial"),
        ]
        .to_vec(),
    );
    let r = table.to_text();
    println!("{}", r);
    // Product manufacturer, name, version, and serial are present
    // in all v2+ versions:
    assert!(r.contains("Product Name: test name"));
    // Product family is v2.4 extension
    assert!(!r.contains("Product Family"));
}

#[test]
fn system_index_beyond_the_pool_gives_the_placeholder() {
    let table = system([1, 8, 0, 0, 0, 100, 0, 0].to_vec(), vec![]);
    let r = table.to_text();
    assert_eq!(
        r,
        "Table 1 (System Information)\n\
         System Manufacturer: Unspecified\n\
         Product Name: String index out of range. Buggy firmware?\n\
         Product Version: Unspecified\n\
         Product Serial: Unspecified\n"
    );
}

#[test]
fn system_short_length_is_reported_as_malformed() {
    for len in 0u8..4 {
        let table = system(vec![1, len, 0, 0, 1, 1, 1, 1], vec![String::from("x")]);
        let mut r = String::new();
        assert_eq!(table.fmt(&mut r), Ok(()));
        assert_eq!(
            r,
            format!(
                "Table 1 (System Information)\n\
                 Malformed structure: declared length {} is shorter than the header\n",
                len
            )
        );
    }
}

#[test]
fn system_length_between_header_and_strings_gives_the_heading_alone() {
    let table = system(vec![1, 7, 0, 0, 1, 1, 1, 1], vec![String::from("x")]);
    assert_eq!(table.to_text(), "Table 1 (System Information)\n");
}

#[test]
fn system_full_structure() {
    let mut bits = vec![0u8; 0x1b];
    bits[0] = 1;
    bits[1] = 0x1b;
    bits[4] = 1;
    bits[5] = 2;
    bits[6] = 3;
    bits[7] = 4;
    for i in 0..16 {
        bits[8 + i] = (i as u8) * 0x11;
    }
    bits[0x18] = 6;
    bits[0x19] = 5;
    bits[0x1a] = 6;
    let strings: Vec<String> = ["m", "n", "v", "s", "sku", "fam"]
        .iter()
        .map(|s| String::from(*s))
        .collect();
    let r = system(bits.clone(), strings.clone()).to_text();
    assert_eq!(
        r,
        "Table 1 (System Information)\n\
         System Manufacturer: m\n\
         Product Name: n\n\
         Product Version: v\n\
         Product Serial: s\n\
         Product SKU: sku\n\
         Product Family: fam\n\
         Wake reason: Power switch\n\
         UUID: 33221100-5544-7766-8899-aabbccddeeff\n"
    );
    bits[1] = 0x19;
    bits[0x18] = 9;
    let r = system(bits, strings).to_text();
    assert!(r.contains("Wake reason: Unrecognized value. Probably a bug.\n"));
    assert!(r.contains("UUID: "));
    assert!(!r.contains("Product SKU"));
}

#[test]
fn system_wake_reason_needs_a_length_that_covers_it() {
    let strings = vec![String::from("x")];
    for len in 9u8..=0x17 {
        let mut bits = vec![0u8; 0x19];
        bits[0] = 1;
        bits[1] = len;
        bits[4] = 1;
        bits[0x18] = 3;
        let r = system(bits, strings.clone()).to_text();
        assert_eq!(
            r,
            "Table 1 (System Information)\n\
             System Manufacturer: x\n\
             Product Name: Unspecified\n\
             Product Version: Unspecified\n\
             Product Serial: Unspecified\n"
        );
    }
    let r = system(vec![1, 9, 0, 0, 0, 0, 0, 0, 0], strings.clone()).to_text();
    assert!(!r.contains("Wake reason"));
    let mut bits = vec![0u8; 0x19];
    bits[1] = 0x18;
    bits[8] = 0xab;
    bits[0x18] = 3;
    let r = system(bits, strings.clone()).to_text();
    assert!(!r.contains("Wake reason"));
    assert!(r.ends_with("UUID: 000000ab-0000-0000-0000-000000000000\n"));
    let mut bits = vec![0u8; 0x19];
    bits[1] = 0x19;
    bits[0x18] = 3;
    let r = system(bits, strings).to_text();
    assert!(r.contains("Wake reason: APM Timer\nUUID: 00000000-0000-0000-0000-000000000000\n"));
}
