use crate::dmi::entrypoint::spec_has_signature_32;
use crate::dmi::entrypoint::spec_has_signature_64;
use crate::dmi::err::DMIParserError;
use crate::dmi::table::byte_of;
use crate::dmi::table::reader::lemma_string_end;
use crate::dmi::table::reader::read_null_terminated_string;
use crate::dmi::table::reader::spec_chars;
use crate::dmi::table::reader::spec_string_end;
use crate::dmi::table::spec_byte_of;
use crate::dmi::text::le64;
use crate::dmi::text::push_decimal;
use crate::dmi::text::push_hex;
use crate::dmi::text::push_hex_byte;
use crate::dmi::text::spec_decimal;
use crate::dmi::text::spec_hex;
use crate::dmi::text::spec_hex_byte;
use crate::dmi::text::spec_le;
use vstd::prelude::*;
use vstd::string::StringExecFns;

verus! {

/// What is left to do once the entry point has been reported.
#[derive(Debug, Clone, Copy, PartialEq, Eq, Structural)]
pub enum RawAction {
    /// Nothing.
    Done,
    /// The record at the start of the table is to be reported.
    ReadTables,
}

/// Whether the bytes of a 64-bit entry point can be reported: they are
/// long enough for the table's address, the length byte is 24 and the
/// revision is 1.
pub open spec fn spec_header_64_ok(ep: Seq<u8>) -> bool {
    ep.len() >= 0x18 && ep[6] == 0x18 && ep[0xa] == 1
}

/// The line of the version of a 64-bit entry point.
pub open spec fn spec_version_line(ep: Seq<u8>) -> Seq<char> {
    "SMBIOS spec version: "@ + spec_decimal(ep[7] as nat) + "."@ + spec_decimal(ep[8] as nat)
        + "."@ + spec_decimal(ep[9] as nat) + "\n"@
}

/// The lines on a 64-bit entry point: a fault in the length, or the
/// version followed by a fault in the revision, or the version, the
/// revision and the address of the table.
pub open spec fn spec_header_64_text(ep: Seq<u8>) -> Seq<char> {
    if ep.len() < 0x18 || ep[6] != 0x18 {
        "Got unexpected header length\n"@
    } else if ep[0xa] != 1 {
        spec_version_line(ep) + "Unknown entrypoint revision "@ + spec_decimal(ep[0xa] as nat)
            + "\n"@
    } else {
        spec_version_line(ep) + "Using SMBIOS 3.0 entrypoint\nTable is at location 0x"@
            + spec_hex(spec_le(ep, 0x10, 8)) + "\n"@
    }
}

/// The lines on an entry point, by its signature.  Bytes without a known
/// signature give no line.
pub open spec fn spec_raw_entry_text(ep: Seq<u8>) -> Seq<char> {
    if spec_has_signature_32(ep) {
        "Found a 32 bit header!\nNot implemented\n"@
    } else if spec_has_signature_64(ep) {
        "Found a 64 bit header!\n"@ + spec_header_64_text(ep)
    } else {
        Seq::empty()
    }
}

/// What follows the report of an entry point, or the fault in it.  Only
/// a 64-bit entry point can have a fault, and only a faultless one is
/// followed by the record at the start of the table.
pub open spec fn spec_raw_entry_result(ep: Seq<u8>) -> Result<RawAction, DMIParserError> {
    if !spec_has_signature_32(ep) && spec_has_signature_64(ep) {
        if spec_header_64_ok(ep) {
            Ok(RawAction::ReadTables)
        } else {
            Err(DMIParserError::HeaderDataError)
        }
    } else {
        Ok(RawAction::Done)
    }
}

/// The line of one string.
pub open spec fn spec_string_line(s: Seq<char>) -> Seq<char> {
    "Read a string! "@ + s + "\n"@
}

/// Offset of the strings of a record: after its two header bytes where
/// the first of them is zero, else where the second one says.
pub open spec fn spec_record_strings_at(data: Seq<u8>) -> int {
    if spec_byte_of(data, 0) != 0 {
        spec_byte_of(data, 1) as int
    } else if data.len() < 2 {
        data.len() as int
    } else {
        2
    }
}

/// The lines on the record at the start of `data`: its two header bytes,
/// a notice where the first of them is not zero, and its strings.
pub open spec fn spec_record_text(data: Seq<u8>) -> Seq<char> {
    " Header bytes 1 and 2 are: "@ + spec_hex_byte(spec_byte_of(data, 0)) + " "@ + spec_hex_byte(
        spec_byte_of(data, 1),
    ) + "\n"@ + (if spec_byte_of(data, 0) != 0 {
        "Skipping table with ID "@ + spec_hex_byte(spec_byte_of(data, 0)) + "\n"@
    } else {
        Seq::empty()
    }) + spec_string_lines(data, spec_record_strings_at(data))
}

/// Appends the line of the version of a 64-bit entry point.
fn print_version_line(f: &mut String, ep: &[u8])
    requires
        ep@.len() >= 0x18,
    ensures
        final(f)@ == old(f)@ + spec_version_line(ep@),
{
    f.append("SMBIOS spec version: ");
    push_decimal(f, ep[7] as u64);
    f.append(".");
    push_decimal(f, ep[8] as u64);
    f.append(".");
    push_decimal(f, ep[9] as u64);
    f.append("\n");
    assert(final(f)@ =~= old(f)@ + spec_version_line(ep@));
}

/// Appends the lines on a 64-bit entry point and tells whether it has a
/// fault.
pub fn print_header_64(f: &mut String, ep: &[u8]) -> (r: Result<(), DMIParserError>)
    ensures
        final(f)@ == old(f)@ + spec_header_64_text(ep@),
        spec_header_64_ok(ep@) ==> r == Ok::<(), DMIParserError>(()),
        !spec_header_64_ok(ep@) ==> r == Err::<(), DMIParserError>(DMIParserError::HeaderDataError),
{
    if ep.len() < 0x18 || ep[6] != 0x18 {
        f.append("Got unexpected header length\n");
        return Err(DMIParserError::HeaderDataError);
    }
    print_version_line(f, ep);
    if ep[0xa] != 0x1 {
        f.append("Unknown entrypoint revision ");
        push_decimal(f, ep[0xa] as u64);
        f.append("\n");
        assert(final(f)@ =~= old(f)@ + spec_header_64_text(ep@));
        return Err(DMIParserError::HeaderDataError);
    }
    let table_addr: u64 = le64(ep, 0x10);
    f.append("Using SMBIOS 3.0 entrypoint\nTable is at location 0x");
    push_hex(f, table_addr);
    f.append("\n");
    assert(final(f)@ =~= old(f)@ + spec_header_64_text(ep@));
    Ok(())
}

/// Appends the notice on a 32-bit entry point.
pub fn print_header_32(f: &mut String, _ep: &[u8])
    ensures
        final(f)@ == old(f)@ + "Not implemented\n"@,
{
    f.append("Not implemented\n");
}

/// Appends the lines on an entry point and tells what is left to do.
pub fn decode_bios_raw_table(f: &mut String, ep: &[u8]) -> (r: Result<RawAction, DMIParserError>)
    ensures
        final(f)@ == old(f)@ + spec_raw_entry_text(ep@),
        r == spec_raw_entry_result(ep@),
{
    let n: usize = ep.len();
    if n >= 4 && ep[0] == 0x5f && ep[1] == 0x53 && ep[2] == 0x4d && ep[3] == 0x5f {
        f.append("Found a 32 bit header!\n");
        print_header_32(f, ep);
        assert(final(f)@ =~= old(f)@ + spec_raw_entry_text(ep@)) by {
            reveal_strlit("Found a 32 bit header!\n");
            reveal_strlit("Not implemented\n");
            reveal_strlit("Found a 32 bit header!\nNot implemented\n");
        }
        Ok(RawAction::Done)
    } else if n >= 5 && ep[0] == 0x5f && ep[1] == 0x53 && ep[2] == 0x4d && ep[3] == 0x33 && ep[4]
        == 0x5f {
        f.append("Found a 64 bit header!\n");
        let r = print_header_64(f, ep);
        assert(final(f)@ =~= old(f)@ + spec_raw_entry_text(ep@));
        match r {
            Ok(()) => Ok(RawAction::ReadTables),
            Err(e) => Err(e),
        }
    } else {
        assert(final(f)@ =~= old(f)@ + spec_raw_entry_text(ep@));
        Ok(RawAction::Done)
    }
}

/// The lines of the strings that are read from offset `p` of `data` on,
/// one string after the other.  An empty string, or the end of `data`,
/// ends the reading.
pub open spec fn spec_string_lines(data: Seq<u8>, p: int) -> Seq<char>
    decreases data.len() - p,
{
    let end = spec_string_end(data, p);
    if p < 0 || p >= data.len() || end <= p || end > data.len() {
        Seq::empty()
    } else if end == data.len() {
        spec_string_line(spec_chars(data.subrange(p, end)))
    } else {
        spec_string_line(spec_chars(data.subrange(p, end))) + spec_string_lines(data, end + 1)
    }
}

/// Appends the lines of the strings that are read from offset `start` of
/// `data` on.
pub fn print_strings(f: &mut String, data: &[u8], start: usize)
    ensures
        final(f)@ == old(f)@ + spec_string_lines(data@, start as int),
{
    let n: usize = data.len();
    let mut p: usize = start;
    assert(f@ + spec_string_lines(data@, start as int) =~= old(f)@ + spec_string_lines(
        data@,
        start as int,
    ));
    while p < n
        invariant
            n == data@.len(),
            f@ + spec_string_lines(data@, p as int) == old(f)@ + spec_string_lines(
                data@,
                start as int,
            ),
        decreases n - p,
    {
        let (s, next) = read_null_terminated_string(data, p);
        proof {
            lemma_string_end(data@, p as int);
        }
        if s.as_str().is_empty() {
            assert(f@ + Seq::<char>::empty() =~= f@);
            return ;
        }
        let ghost rest: Seq<char> = spec_string_lines(data@, next as int);
        let ghost before: Seq<char> = f@;
        f.append("Read a string! ");
        f.append(s.as_str());
        f.append("\n");
        assert(f@ + rest =~= before + (spec_string_line(s@) + rest));
        p = next;
    }
    assert(f@ + Seq::<char>::empty() =~= f@);
}

/// Appends the lines on the record at the start of `data`.
pub fn print_raw_record(f: &mut String, data: &[u8])
    ensures
        final(f)@ == old(f)@ + spec_record_text(data@),
{
    let first: u8 = byte_of(data, 0);
    let second: u8 = byte_of(data, 1);
    f.append(" Header bytes 1 and 2 are: ");
    push_hex_byte(f, first);
    f.append(" ");
    push_hex_byte(f, second);
    f.append("\n");
    let start: usize = if first != 0 {
        f.append("Skipping table with ID ");
        push_hex_byte(f, first);
        f.append("\n");
        second as usize
    } else if data.len() < 2 {
        data.len()
    } else {
        2
    };
    print_strings(f, data, start);
    assert(final(f)@ =~= old(f)@ + spec_record_text(data@));
}

} // verus!
