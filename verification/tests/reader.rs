use dmi_decoder::dmi::entrypoint::Entrypoint;
use dmi_decoder::dmi::entrypoint::TableLocation;
use dmi_decoder::dmi::entrypoint::TableSize;
use dmi_decoder::dmi::err::DMIParserError;
use dmi_decoder::dmi::raw::decode_entrypoint;
use dmi_decoder::dmi::raw::read_raw_table;
use dmi_decoder::dmi::raw::walk_table;
use dmi_decoder::dmi::raw::WalkStop;
use dmi_decoder::dmi::raw::WALK_CAP;
use dmi_decoder::dmi::table::Table;
use dmi_decoder::dmi::table::TableId;

fn structure(type_id: u8, handle: u16, body: &[u8], strings: &[&str]) -> Vec<u8> {
    let mut v = vec![type_id, (4 + body.len()) as u8, handle as u8, (handle >> 8) as u8];
    v.extend_from_slice(body);
    for s in strings {
        v.extend_from_slice(s.as_bytes());
        v.push(0);
    }
    if strings.is_empty() {
        v.push(0);
    }
    v.push(0);
    v
}

fn truncated(r: Result<Table, DMIParserError>) -> bool {
    match r {
        Err(DMIParserError::IOError(m)) => m == "unexpected end of table",
        _ => false,
    }
}

#[test]
fn reads_one_structure_with_strings() {
    let mut blob = vec![0xee, 0xee, 0xee];
    blob.extend(structure(1, 0x0102, &[1, 2, 0, 0], &["maker", "name"]));
    blob.push(0x7f);
    let t = Table::read_at(&blob, 3).unwrap();
    assert_eq!(t.id, TableId::System);
    assert_eq!(t.id(), 1);
    assert_eq!(t.size(), 8);
    assert_eq!(t.handle(), 0x0102);
    assert_eq!(t.location(), 3);
    assert_eq!(t.data.string_location, 11);
    assert_eq!(t.next_loc(), 3 + 8 + 6 + 5 + 1);
    assert_eq!(t.bits(), &vec![1, 8, 2, 1, 1, 2, 0, 0]);
    assert_eq!(t.strings(), &vec![String::from("maker"), String::from("name")]);
    assert_eq!(blob[t.next_loc() as usize], 0x7f);
    assert!(t.to_text().contains("System Manufacturer: maker\nProduct Name: name\n"));
}

#[test]
fn reads_a_structure_without_strings() {
    let blob = structure(127, 9, &[], &[]);
    assert_eq!(blob, vec![127, 4, 9, 0, 0, 0]);
    let t = Table::read(&blob).unwrap();
    assert_eq!(t.id, TableId::EndOfTable);
    assert_eq!(t.strings().len(), 0);
    assert_eq!(t.data.string_location, 4);
    assert_eq!(t.next_loc(), 6);
}

#[test]
fn the_byte_after_an_empty_pool_is_skipped_unread() {
    let blob = vec![5, 4, 0, 0, 0, 0x41, 0x42];
    let t = Table::read(&blob).unwrap();
    assert_eq!(t.strings().len(), 0);
    assert_eq!(t.next_loc(), 6);
}

#[test]
fn string_bytes_stand_for_the_code_points_of_their_number() {
    let blob = vec![9, 4, 0, 0, 0x41, 0xe9, 0xff, 0, 0];
    let t = Table::read(&blob).unwrap();
    assert_eq!(t.strings(), &vec![String::from("A\u{e9}\u{ff}")]);
    assert_eq!(t.next_loc(), 9);
}

#[test]
fn a_declared_length_below_the_header_keeps_the_header() {
    let blob = vec![1, 2, 7, 0, 0, 0];
    let t = Table::read(&blob).unwrap();
    assert_eq!(t.bits(), &vec![1, 2, 7, 0]);
    assert_eq!(t.data.string_location, 2);
    assert_eq!(t.strings(), &vec![String::from("\u{7}")]);
    assert_eq!(t.next_loc(), 5);
    assert_eq!(
        t.to_text(),
        "Table 1 (System Information)\n\
         Malformed structure: declared length 2 is shorter than the header\n"
    );
}

#[test]
fn a_table_that_ends_inside_a_structure_is_an_error() {
    let whole = structure(2, 1, &[1, 0, 0, 0], &["board"]);
    assert!(Table::read(&whole).is_ok());
    for cut in 0..whole.len() {
        assert!(truncated(Table::read(&whole[..cut])), "cut at {}", cut);
    }
    let bare = structure(2, 1, &[], &[]);
    assert!(Table::read(&bare).is_ok());
    for cut in 0..bare.len() {
        assert!(truncated(Table::read(&bare[..cut])), "cut at {}", cut);
    }
    assert!(truncated(Table::read_at(&whole, whole.len() as u64)));
    assert!(truncated(Table::read_at(&whole, u64::MAX)));
    assert!(truncated(Table::read(&[])));
}

fn sample_table() -> Vec<u8> {
    let mut blob = structure(0, 0, &[0; 14], &["vendor", "version", "date"]);
    blob.extend(structure(1, 1, &[1, 0, 0, 0], &["maker"]));
    blob.extend(structure(2, 2, &[1, 0, 0, 0, 0], &["board"]));
    blob.extend(structure(127, 3, &[], &[]));
    blob
}

#[test]
fn walk_finds_the_type_asked_for() {
    let blob = sample_table();
    let w = walk_table(2, 4096, &blob).unwrap();
    assert_eq!(w.stop, WalkStop::Found);
    assert_eq!(w.steps, 2);
    assert_eq!(w.table.id(), 2);
    assert_eq!(w.table.strings(), &vec![String::from("board")]);
    let w = walk_table(0, 4096, &blob).unwrap();
    assert_eq!(w.stop, WalkStop::Found);
    assert_eq!(w.steps, 0);
    assert_eq!(w.table.location(), 0);
}

#[test]
fn walk_stops_at_the_end_of_the_table() {
    let blob = sample_table();
    let w = walk_table(3, 4096, &blob).unwrap();
    assert_eq!(w.stop, WalkStop::EndOfTable);
    assert_eq!(w.steps, 3);
    assert_eq!(w.table.id(), 127);
    let w = walk_table(127, 4096, &blob).unwrap();
    assert_eq!(w.stop, WalkStop::EndOfTable);
}

#[test]
fn walk_stops_where_the_declared_size_is_exceeded() {
    let blob = sample_table();
    let first = Table::read(&blob).unwrap();
    let w = walk_table(2, (first.next_loc() - 1) as u32, &blob).unwrap();
    assert_eq!(w.stop, WalkStop::SizeExceeded);
    assert_eq!(w.steps, 0);
    assert_eq!(w.table.id(), 0);
    let w = walk_table(2, first.next_loc() as u32, &blob).unwrap();
    assert_eq!(w.stop, WalkStop::SizeExceeded);
    assert_eq!(w.steps, 1);
    assert_eq!(w.table.id(), 1);
    let w = walk_table(2, (blob.len() - 6) as u32, &blob).unwrap();
    assert_eq!(w.stop, WalkStop::Found);
    assert_eq!(w.steps, 2);
}

#[test]
fn walk_without_end_mark_stops_at_the_cap() {
    let mut blob = Vec::new();
    for k in 0..(WALK_CAP + 5) {
        blob.extend(structure(40, k as u16, &[], &[]));
    }
    let w = walk_table(1, u32::MAX, &blob).unwrap();
    assert_eq!(w.stop, WalkStop::CapReached);
    assert_eq!(w.steps, WALK_CAP);
    assert_eq!(w.steps, 1000);
    assert_eq!(w.table.location(), 6 * 1000);
    assert_eq!(w.table.handle(), 1000);
}

#[test]
fn walk_without_end_mark_fails_where_the_table_ends() {
    let mut blob = Vec::new();
    for k in 0..10 {
        blob.extend(structure(40, k as u16, &[], &[]));
    }
    match walk_table(1, u32::MAX, &blob) {
        Err(DMIParserError::IOError(m)) => assert_eq!(m, "unexpected end of table"),
        _ => panic!("the walk went past the end of the table"),
    }
    let w = walk_table(1, 59, &blob).unwrap();
    assert_eq!(w.stop, WalkStop::SizeExceeded);
    assert_eq!(w.steps, 9);
}

fn header_32() -> Vec<u8> {
    let mut h = vec![0u8; 0x1f];
    h[..4].copy_from_slice(b"_SM_");
    h[5] = 0x1f;
    h[6] = 2;
    h[7] = 8;
    h[8] = 1;
    h[0x16] = 0x34;
    h[0x17] = 0x12;
    h[0x18] = 0x78;
    h[0x19] = 0x56;
    h[0x1a] = 0x0f;
    h[0x1b] = 0x00;
    h
}

fn header_64() -> Vec<u8> {
    let mut h = vec![0u8; 0x18];
    h[..5].copy_from_slice(b"_SM3_");
    h[6] = 0x18;
    h[7] = 3;
    h[8] = 12;
    h[9] = 0;
    h[0xa] = 1;
    h[0xc..0x10].copy_from_slice(&[0x00, 0x10, 0x00, 0x80]);
    h[0x10..0x18].copy_from_slice(&[1, 2, 3, 4, 5, 6, 7, 8]);
    h
}

#[test]
fn entry_point_of_32_bits() {
    let e = Entrypoint::read(&header_32()).unwrap();
    assert_eq!(
        e,
        Entrypoint {
            major: 2,
            minor: 8,
            rev: 1,
            length: 0x1f,
            location: TableLocation::Loc32(0x000f_5678),
            table_size: TableSize::Length(0x1234),
        }
    );
    assert_eq!(e.version(), "2.8.1");
    assert_eq!(e.table_size(), 0x1234);
}

#[test]
fn entry_point_of_64_bits() {
    let e = decode_entrypoint(&header_64()).unwrap();
    assert_eq!(
        e,
        Entrypoint {
            major: 3,
            minor: 12,
            rev: 0,
            length: 0x18,
            location: TableLocation::Loc64(0x0807_0605_0403_0201),
            table_size: TableSize::MaxSize(0x8000_1000),
        }
    );
    assert_eq!(e.version(), "3.12.0");
    assert_eq!(e.table_size(), 0x8000_1000);
}

fn header_error(r: Result<Entrypoint, DMIParserError>) -> bool {
    matches!(r, Err(DMIParserError::HeaderDataError))
}

#[test]
fn entry_point_with_a_fault_is_a_header_error() {
    assert!(header_error(Entrypoint::read(&[])));
    assert!(header_error(Entrypoint::read(b"_SM")));
    assert!(header_error(Entrypoint::read(b"_SM_")));
    assert!(header_error(Entrypoint::read(b"_DMI_ and more bytes to fill the header up")));
    let mut h = header_32();
    h[5] = 0x1e;
    assert!(header_error(Entrypoint::read(&h)));
    let mut h = header_32();
    h[0xa] = 1;
    assert!(header_error(Entrypoint::read(&h)));
    assert!(header_error(Entrypoint::read(&header_32()[..0x1b])));
    assert!(Entrypoint::read(&header_32()[..0x1c]).is_ok());
    let mut h = header_64();
    h[6] = 0x1f;
    assert!(header_error(Entrypoint::read(&h)));
    let mut h = header_64();
    h[0xa] = 0;
    assert!(header_error(Entrypoint::read(&h)));
    assert!(header_error(Entrypoint::read(&header_64()[..0x17])));
    assert!(header_error(Entrypoint::from_header_32(&header_64())));
    assert!(header_error(Entrypoint::from_header_64(&header_32())));
}

#[test]
fn raw_table_tells_why_the_walk_stopped() {
    let blob = sample_table();
    let e = Entrypoint::read(&header_32()).unwrap();
    let w = read_raw_table(1, e, &blob).unwrap();
    assert_eq!(w.stop, WalkStop::Found);
    assert_eq!(w.table.id(), 1);
    assert_eq!(w.table.strings(), &vec![String::from("maker")]);
    let w = read_raw_table(77, e, &blob).unwrap();
    assert_eq!(w.stop, WalkStop::EndOfTable);
    assert_eq!(w.table.id(), 127);
    assert!(read_raw_table(77, e, &blob[..blob.len() - 1]).is_err());
    let small = Entrypoint { table_size: TableSize::Length(10), ..e };
    let w = read_raw_table(1, small, &blob).unwrap();
    assert_eq!(w.stop, WalkStop::SizeExceeded);
    assert_eq!(w.table.id(), 0);
}

#[test]
fn raw_table_reports_the_cap() {
    let mut blob = Vec::new();
    for k in 0..(WALK_CAP + 1) {
        blob.extend(structure(40, k as u16, &[], &[]));
    }
    let last = blob.len() - 6;
    blob[last] = 1;
    let e = Entrypoint {
        major: 3,
        minor: 0,
        rev: 0,
        length: 0x18,
        location: TableLocation::Loc64(0),
        table_size: TableSize::MaxSize(u32::MAX),
    };
    let w = read_raw_table(1, e, &blob).unwrap();
    assert_eq!(w.stop, WalkStop::CapReached);
    assert_eq!(w.steps, 1000);
    assert_eq!(w.table.id(), 1);
    let w = read_raw_table(1, e, &blob[6..]).unwrap();
    assert_eq!(w.stop, WalkStop::Found);
    assert_eq!(w.steps, 999);
    assert_eq!(w.table.id(), 1);
}
