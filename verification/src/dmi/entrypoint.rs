use crate::dmi::err::DMIParserError;
use crate::dmi::text::le16;
use crate::dmi::text::le32;
use crate::dmi::text::le64;
use crate::dmi::text::push_decimal;
use crate::dmi::text::spec_decimal;
use crate::dmi::text::spec_le;
use vstd::prelude::*;
use vstd::string::StringExecFns;

verus! {

/// Address of the structure table.
#[derive(Debug, Clone, Copy, PartialEq, Eq, Structural)]
pub enum TableLocation {
    Loc32(u32),
    Loc64(u64),
}

/// Size of the structure table.  A 32-bit entry point gives the length of
/// the table in 16 bits, a 64-bit entry point the greatest size that the
/// table may have in 32 bits.
#[derive(Debug, Clone, Copy, PartialEq, Eq, Structural)]
pub enum TableSize {
    MaxSize(u32),
    Length(u16),
}

/// What an entry point says of the structure table.
#[derive(Debug, Clone, Copy, PartialEq, Eq, Structural)]
pub struct Entrypoint {
    pub major: u8,
    pub minor: u8,
    pub rev: u8,
    pub length: u8,
    pub location: TableLocation,
    pub table_size: TableSize,
}

/// Whether `h` starts with the signature `_SM_` of a 32-bit entry point.
pub open spec fn spec_has_signature_32(h: Seq<u8>) -> bool {
    h.len() >= 4 && h[0] == 0x5f && h[1] == 0x53 && h[2] == 0x4d && h[3] == 0x5f
}

/// Whether `h` starts with the signature `_SM3_` of a 64-bit entry point.
pub open spec fn spec_has_signature_64(h: Seq<u8>) -> bool {
    h.len() >= 5 && h[0] == 0x5f && h[1] == 0x53 && h[2] == 0x4d && h[3] == 0x33 && h[4] == 0x5f
}

/// Whether `h` can be read as a 32-bit entry point: it is long enough for
/// the table's address, its length byte is 31 and its revision is 0.
pub open spec fn spec_valid_32(h: Seq<u8>) -> bool {
    h.len() >= 0x1c && h[5] == 0x1f && h[0xa] == 0
}

/// Whether `h` can be read as a 64-bit entry point: it is long enough for
/// the table's address, its length byte is 24 and its revision is 1.
pub open spec fn spec_valid_64(h: Seq<u8>) -> bool {
    h.len() >= 0x18 && h[6] == 0x18 && h[0xa] == 1
}

/// What a valid 32-bit entry point says.
pub open spec fn spec_header_32(h: Seq<u8>) -> Entrypoint {
    Entrypoint {
        major: h[6],
        minor: h[7],
        rev: h[8],
        length: h[5],
        location: TableLocation::Loc32(spec_le(h, 0x18, 4) as u32),
        table_size: TableSize::Length(spec_le(h, 0x16, 2) as u16),
    }
}

/// What a valid 64-bit entry point says.
pub open spec fn spec_header_64(h: Seq<u8>) -> Entrypoint {
    Entrypoint {
        major: h[7],
        minor: h[8],
        rev: h[9],
        length: h[6],
        location: TableLocation::Loc64(spec_le(h, 0x10, 8) as u64),
        table_size: TableSize::MaxSize(spec_le(h, 0xc, 4) as u32),
    }
}

/// What the bytes of an entry point say, if they say anything: the
/// signature picks the layout, and the layout's own checks must hold.
pub open spec fn spec_entrypoint(h: Seq<u8>) -> Option<Entrypoint> {
    if spec_has_signature_32(h) {
        if spec_valid_32(h) {
            Some(spec_header_32(h))
        } else {
            None
        }
    } else if spec_has_signature_64(h) {
        if spec_valid_64(h) {
            Some(spec_header_64(h))
        } else {
            None
        }
    } else {
        None
    }
}

impl Entrypoint {
    /// Address and size are of the same layout.
    pub open spec fn spec_well_formed(&self) -> bool {
        match (self.location, self.table_size) {
            (TableLocation::Loc32(_), TableSize::Length(_)) => true,
            (TableLocation::Loc64(_), TableSize::MaxSize(_)) => true,
            _ => false,
        }
    }

    /// The version in the form major.minor.revision.
    pub open spec fn spec_version(&self) -> Seq<char> {
        spec_decimal(self.major as nat) + "."@ + spec_decimal(self.minor as nat) + "."@
            + spec_decimal(self.rev as nat)
    }

    /// The size of the table as a number.
    pub open spec fn spec_table_size(&self) -> u32 {
        match self.table_size {
            TableSize::MaxSize(v) => v,
            TableSize::Length(v) => v as u32,
        }
    }

    /// Reads an entry point from its bytes.
    pub fn read(ep: &[u8]) -> (r: Result<Entrypoint, DMIParserError>)
        ensures
            match spec_entrypoint(ep@) {
                Some(e) => r == Ok::<Entrypoint, DMIParserError>(e) && e.spec_well_formed(),
                None => r == Err::<Entrypoint, DMIParserError>(DMIParserError::HeaderDataError),
            },
    {
        let n: usize = ep.len();
        if n >= 4 && ep[0] == 0x5f && ep[1] == 0x53 && ep[2] == 0x4d && ep[3] == 0x5f {
            Entrypoint::from_header_32(ep)
        } else if n >= 5 && ep[0] == 0x5f && ep[1] == 0x53 && ep[2] == 0x4d && ep[3] == 0x33
            && ep[4] == 0x5f {
            Entrypoint::from_header_64(ep)
        } else {
            Err(DMIParserError::HeaderDataError)
        }
    }

    /// Reads the fields of a 32-bit entry point.
    pub fn from_header_32(header: &[u8]) -> (r: Result<Entrypoint, DMIParserError>)
        ensures
            spec_valid_32(header@) ==> r == Ok::<Entrypoint, DMIParserError>(
                spec_header_32(header@),
            ) && spec_header_32(header@).spec_well_formed(),
            !spec_valid_32(header@) ==> r == Err::<Entrypoint, DMIParserError>(
                DMIParserError::HeaderDataError,
            ),
    {
        if header.len() < 0x1c || header[5] != 0x1f || header[0xa] != 0 {
            return Err(DMIParserError::HeaderDataError);
        }
        let table_addr: u32 = le32(header, 0x18);
        let table_len: u16 = le16(header, 0x16);
        Ok(
            Entrypoint {
                major: header[6],
                minor: header[7],
                rev: header[8],
                length: header[5],
                location: TableLocation::Loc32(table_addr),
                table_size: TableSize::Length(table_len),
            },
        )
    }

    /// Reads the fields of a 64-bit entry point.
    pub fn from_header_64(header: &[u8]) -> (r: Result<Entrypoint, DMIParserError>)
        ensures
            spec_valid_64(header@) ==> r == Ok::<Entrypoint, DMIParserError>(
                spec_header_64(header@),
            ) && spec_header_64(header@).spec_well_formed(),
            !spec_valid_64(header@) ==> r == Err::<Entrypoint, DMIParserError>(
                DMIParserError::HeaderDataError,
            ),
    {
        if header.len() < 0x18 || header[6] != 0x18 || header[0xa] != 0x1 {
            return Err(DMIParserError::HeaderDataError);
        }
        let table_addr: u64 = le64(header, 0x10);
        let structure_max_size: u32 = le32(header, 0xc);
        Ok(
            Entrypoint {
                major: header[7],
                minor: header[8],
                rev: header[9],
                length: header[6],
                location: TableLocation::Loc64(table_addr),
                table_size: TableSize::MaxSize(structure_max_size),
            },
        )
    }

    /// The version in the form major.minor.revision.
    pub fn version(&self) -> (r: String)
        ensures
            r@ == self.spec_version(),
    {
        let mut r: String = String::new();
        push_decimal(&mut r, self.major as u64);
        r.append(".");
        push_decimal(&mut r, self.minor as u64);
        r.append(".");
        push_decimal(&mut r, self.rev as u64);
        assert(r@ =~= self.spec_version());
        r
    }

    /// The size of the table as a number.
    pub fn table_size(&self) -> (r: u32)
        ensures
            r == self.spec_table_size(),
    {
        match self.table_size {
            TableSize::MaxSize(v) => v,
            TableSize::Length(v) => v as u32,
        }
    }
}

} // verus!
