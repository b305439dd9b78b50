use crate::dmi::err::DecodeError;
use crate::dmi::text::push_decimal;
use crate::dmi::text::spec_decimal;
use vstd::prelude::*;
use vstd::string::StringExecFns;

pub mod reader;
pub mod table0;
pub mod table1;
pub mod table2;
pub mod table3;

verus! {

/// What was read of one structure, and where.
#[derive(Debug)]
pub struct Data {
    /// Offset of the structure's first byte in the table.
    pub location: u64,
    /// Offset of the first byte after the formatted area.
    pub string_location: u64,
    /// Offset of the first byte after the string pool.
    pub next_loc: u64,
    /// The header and the formatted area.  A byte that is not held reads
    /// as zero.
    pub bits: Vec<u8>,
    /// The string pool, in the order of the table.
    pub strings: Vec<String>,
}

/// The kinds of structure that are told apart.
#[derive(Debug, Clone, Copy, PartialEq, Eq, Structural)]
pub enum TableId {
    Bios,
    System,
    Baseboard,
    Chassis,
    EndOfTable,
    Other,
}

/// One structure of the table.
#[derive(Debug)]
pub struct Table {
    pub id: TableId,
    pub data: Data,
}

/// The kind that a type byte stands for.
pub open spec fn spec_classify(type_id: u8) -> TableId {
    if type_id == 0 {
        TableId::Bios
    } else if type_id == 1 {
        TableId::System
    } else if type_id == 2 {
        TableId::Baseboard
    } else if type_id == 3 {
        TableId::Chassis
    } else if type_id == 127 {
        TableId::EndOfTable
    } else {
        TableId::Other
    }
}

/// Tells the kind of a structure from its type byte.
pub fn classify(type_id: u8) -> (id: TableId)
    ensures
        id == spec_classify(type_id),
{
    if type_id == 0 {
        TableId::Bios
    } else if type_id == 1 {
        TableId::System
    } else if type_id == 2 {
        TableId::Baseboard
    } else if type_id == 3 {
        TableId::Chassis
    } else if type_id == 127 {
        TableId::EndOfTable
    } else {
        TableId::Other
    }
}

/// The text that index byte `i` selects from the pool `strings`: index
/// zero means that the field is not specified, an index within the pool
/// names a string by its position counted from one, and everything else,
/// an empty string included, is a firmware fault.
pub open spec fn spec_string_at(strings: Seq<String>, i: u8) -> Seq<char> {
    if i == 0 {
        "Unspecified"@
    } else if i as int <= strings.len() && strings[i as int - 1]@.len() > 0 {
        strings[i as int - 1]@
    } else {
        "String index out of range. Buggy firmware?"@
    }
}

/// Resolves an index byte against a string pool.
pub fn string_at<'a>(strings: &'a Vec<String>, i: u8) -> (r: &'a str)
    ensures
        r@ == spec_string_at(strings@, i),
{
    let idx: usize = i as usize;
    if idx == 0 {
        "Unspecified"
    } else if idx <= strings.len() && !strings[idx - 1].as_str().is_empty() {
        strings[idx - 1].as_str()
    } else {
        "String index out of range. Buggy firmware?"
    }
}

/// The line of one flag that is set.
pub open spec fn spec_flag_line(label: Seq<char>) -> Seq<char> {
    "  + "@ + label + "\n"@
}

/// The lines for the flags of `b`: one for each pair of `table` whose
/// mask shares a bit with `b`, in the order of `table`.
pub open spec fn spec_flags<'a>(b: u8, table: Seq<(u8, &'a str)>) -> Seq<char>
    decreases table.len(),
{
    if table.len() == 0 {
        Seq::empty()
    } else {
        spec_flags(b, table.drop_last()) + (if b & table.last().0 != 0 {
            spec_flag_line(table.last().1@)
        } else {
            Seq::empty()
        })
    }
}

/// Appends one line for each pair whose mask shares a bit with `b`, in
/// the order of the table.
pub fn decode_byte(f: &mut String, b: u8, bit_strings: &[(u8, &str)])
    ensures
        final(f)@ == old(f)@ + spec_flags(b, bit_strings@),
{
    let n: usize = bit_strings.len();
    let mut i: usize = 0;
    assert(bit_strings@.take(0).len() == 0);
    assert(f@ =~= old(f)@ + spec_flags(b, bit_strings@.take(0)));
    while i < n
        invariant
            n == bit_strings@.len(),
            i <= n,
            f@ == old(f)@ + spec_flags(b, bit_strings@.take(i as int)),
        decreases n - i,
    {
        let mask: u8 = bit_strings[i].0;
        let label: &str = bit_strings[i].1;
        if (b & mask) != 0 {
            f.append("  + ");
            f.append(label);
            f.append("\n");
        }
        proof {
            let next = bit_strings@.take(i as int + 1);
            assert(next.drop_last() =~= bit_strings@.take(i as int));
            assert(next.last() == bit_strings@[i as int]);
            assert(f@ =~= old(f)@ + spec_flags(b, next));
        }
        i = i + 1;
    }
    assert(bit_strings@.take(n as int) =~= bit_strings@);
}

/// Two bytes that agree on every mask of a table give the same lines:
/// what is written for a pair depends on that pair's mask alone, and the
/// order is that of the table whatever other bits are set.
pub proof fn lemma_flags_depend_on_masks<'a>(b1: u8, b2: u8, table: Seq<(u8, &'a str)>)
    requires
        forall|k: int| 0 <= k < table.len() ==> ((b1 & #[trigger] table[k].0 != 0) == (b2 & table[k].0 != 0)),
    ensures
        spec_flags(b1, table) == spec_flags(b2, table),
    decreases table.len(),
{
    if table.len() > 0 {
        let rest = table.drop_last();
        assert forall|k: int| 0 <= k < rest.len() implies ((b1 & #[trigger] rest[k].0 != 0) == (b2
            & rest[k].0 != 0)) by {
            assert(rest[k] == table[k]);
        }
        lemma_flags_depend_on_masks(b1, b2, rest);
        assert(table.last() == table[table.len() - 1]);
    }
}

/// A pair that is put at the end of a table adds its line after all the
/// others if its mask is set, and nothing if it is not.
pub proof fn lemma_flags_push<'a>(b: u8, table: Seq<(u8, &'a str)>, mask: u8, label: &'a str)
    ensures
        spec_flags(b, table.push((mask, label))) == spec_flags(b, table) + (if b & mask != 0 {
            spec_flag_line(label@)
        } else {
            Seq::empty()
        }),
{
    assert(table.push((mask, label)).drop_last() =~= table);
}

/// The line that reports a declared length below the four bytes of the
/// header.
pub open spec fn spec_malformed(len: u8) -> Seq<char> {
    "Malformed structure: declared length "@ + spec_decimal(len as nat)
        + " is shorter than the header\n"@
}

/// Appends the report of a declared length below the header's size.
pub fn fmt_malformed(f: &mut String, len: u8)
    ensures
        final(f)@ == old(f)@ + spec_malformed(len),
{
    f.append("Malformed structure: declared length ");
    push_decimal(f, len as u64);
    f.append(" is shorter than the header\n");
    assert(final(f)@ =~= old(f)@ + spec_malformed(len));
}

/// The byte at index `i` of a buffer, zero where the buffer ends before.
pub open spec fn spec_byte_of(data: Seq<u8>, i: int) -> u8 {
    if 0 <= i < data.len() {
        data[i]
    } else {
        0
    }
}

/// Reads the byte at index `i`, zero where the buffer ends before.
pub fn byte_of(data: &[u8], i: usize) -> (b: u8)
    ensures
        b == spec_byte_of(data@, i as int),
{
    if i < data.len() {
        data[i]
    } else {
        0
    }
}

/// What is written for a structure of a type without a decoder.
pub open spec fn spec_unknown_table(data: Seq<u8>) -> Seq<char> {
    "Unhandled table "@ + spec_decimal(spec_byte_of(data, 0) as nat) + "\n"@ + (if spec_byte_of(
        data,
        1,
    ) < 4 {
        spec_malformed(spec_byte_of(data, 1))
    } else {
        Seq::empty()
    })
}

/// Appends the line for a structure of a type without a decoder, and the
/// report of a declared length below the header's size.
pub fn fmt_unknown_table(f: &mut String, data: &[u8])
    ensures
        final(f)@ == old(f)@ + spec_unknown_table(data@),
{
    f.append("Unhandled table ");
    push_decimal(f, byte_of(data, 0) as u64);
    f.append("\n");
    let len: u8 = byte_of(data, 1);
    if len < 4 {
        fmt_malformed(f, len);
    }
    assert(final(f)@ =~= old(f)@ + spec_unknown_table(data@));
}

impl Table {
    /// The byte at index `i` of the structure, zero where it is not held.
    pub open spec fn spec_byte(&self, i: int) -> u8 {
        spec_byte_of(self.data.bits@, i)
    }

    /// The declared length of the structure.
    pub open spec fn spec_size(&self) -> u8 {
        self.spec_byte(1)
    }

    /// The handle: two bytes, low byte first.
    pub open spec fn spec_handle(&self) -> u16 {
        (self.spec_byte(2) as int + 256 * self.spec_byte(3) as int) as u16
    }

    /// The line of a string field: the label, and the string that the
    /// byte at `index` selects from the pool.
    pub open spec fn spec_str(&self, index: int, label: Seq<char>) -> Seq<char> {
        label + ": "@ + spec_string_at(self.data.strings@, self.spec_byte(index)) + "\n"@
    }

    /// Reads the byte at index `i`, zero where it is not held.
    pub fn byte(&self, i: usize) -> (b: u8)
        ensures
            b == self.spec_byte(i as int),
    {
        byte_of(self.data.bits.as_slice(), i)
    }

    /// The type byte.
    pub fn id(&self) -> (r: u8)
        ensures
            r == self.spec_byte(0),
    {
        self.byte(0)
    }

    /// The declared length.
    pub fn size(&self) -> (r: u8)
        ensures
            r == self.spec_size(),
    {
        self.byte(1)
    }

    /// The handle.
    pub fn handle(&self) -> (r: u16)
        ensures
            r == self.spec_handle(),
    {
        let low: u16 = self.byte(2) as u16;
        let high: u16 = self.byte(3) as u16;
        high * 256 + low
    }

    /// The string pool.
    pub fn strings(&self) -> (r: &Vec<String>)
        ensures
            r == &self.data.strings,
    {
        &self.data.strings
    }

    /// The header and the formatted area.
    pub fn bits(&self) -> (r: &Vec<u8>)
        ensures
            r == &self.data.bits,
    {
        &self.data.bits
    }

    /// Offset of the structure in the table.
    pub fn location(&self) -> (r: u64)
        ensures
            r == self.data.location,
    {
        self.data.location
    }

    /// Offset of the structure that follows.
    pub fn next_loc(&self) -> (r: u64)
        ensures
            r == self.data.next_loc,
    {
        self.data.next_loc
    }

    /// Appends the line of the string field whose index byte is at
    /// `index`.
    pub fn fmt_str_at(&self, f: &mut String, index: usize, label: &str)
        ensures
            final(f)@ == old(f)@ + self.spec_str(index as int, label@),
    {
        let i: u8 = self.byte(index);
        f.append(label);
        f.append(": ");
        f.append(string_at(&self.data.strings, i));
        f.append("\n");
        assert(final(f)@ =~= old(f)@ + self.spec_str(index as int, label@));
    }

    /// Appends the line of the string field whose index byte is at
    /// `index`.
    pub fn fmt_str(&self, f: &mut String, index: u8, label: &str)
        ensures
            final(f)@ == old(f)@ + self.spec_str(index as int, label@),
    {
        self.fmt_str_at(f, index as usize, label)
    }

    /// The first line of the text of a structure that is not of the BIOS
    /// kind.
    pub open spec fn spec_heading(&self) -> Seq<char> {
        match self.id {
            TableId::System => "Table 1 (System Information)\n"@,
            TableId::Baseboard => "Table 2 (Baseboard Information)\n"@,
            TableId::Chassis => "Table 3 (System Enclosure or Chassis)\n"@,
            _ => "Unhandled table "@ + spec_decimal(self.spec_byte(0) as nat) + "\n"@,
        }
    }

    /// The text of the structure, by its kind.
    pub open spec fn spec_text(&self) -> Seq<char> {
        match self.id {
            TableId::Bios => self.spec_table0(),
            TableId::System => self.spec_table1(),
            TableId::Baseboard => self.spec_table2(),
            TableId::Chassis => self.spec_table3(),
            _ => spec_unknown_table(self.data.bits@),
        }
    }

    /// Whether the text of the structure is complete.  Only that of a
    /// BIOS structure can be cut short.
    pub open spec fn spec_status(&self) -> Result<(), DecodeError> {
        match self.id {
            TableId::Bios => self.spec_table0_status(),
            _ => Ok(()),
        }
    }

    /// Appends the text of the structure and tells whether it is
    /// complete.
    pub fn fmt(&self, f: &mut String) -> (r: Result<(), DecodeError>)
        ensures
            final(f)@ == old(f)@ + self.spec_text(),
            r == self.spec_status(),
    {
        match self.id {
            TableId::Bios => self.fmt_table0(f),
            TableId::System => {
                self.fmt_table1(f);
                Ok(())
            },
            TableId::Baseboard => {
                self.fmt_table2(f);
                Ok(())
            },
            TableId::Chassis => {
                self.fmt_table3(f);
                Ok(())
            },
            _ => {
                fmt_unknown_table(f, self.data.bits.as_slice());
                Ok(())
            },
        }
    }

    /// The text of the structure, complete or not.
    pub fn to_text(&self) -> (r: String)
        ensures
            r@ == self.spec_text(),
    {
        let mut r: String = String::new();
        let _ = self.fmt(&mut r);
        assert(r@ =~= self.spec_text());
        r
    }
}

/// A structure that declares a length below the four bytes of its header
/// is reported as malformed and none of its fields is decoded: of a BIOS
/// structure the text is the sentence on its invalid length, and it is
/// marked as cut short; of any other it is the first line and the report.
pub proof fn lemma_short_structure_is_reported(t: Table)
    requires
        t.spec_size() < 4,
    ensures
        t.id == TableId::Bios ==> t.spec_status() == Err::<(), DecodeError>(
            DecodeError::InvalidLength,
        ) && t.spec_text() == "Invalid BIOS characteristics table length "@ + spec_decimal(
            t.spec_size() as nat,
        ),
        t.id != TableId::Bios ==> t.spec_status() is Ok && t.spec_text() == t.spec_heading()
            + spec_malformed(t.spec_size()),
{
    if t.id != TableId::Bios && t.id != TableId::System && t.id != TableId::Baseboard && t.id
        != TableId::Chassis {
        assert(t.spec_text() =~= t.spec_heading() + spec_malformed(t.spec_size()));
    }
}

} // verus!
