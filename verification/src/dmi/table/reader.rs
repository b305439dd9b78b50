use crate::dmi::err::DMIParserError;
use crate::dmi::table::classify;
use crate::dmi::table::spec_classify;
use crate::dmi::table::Data;
use crate::dmi::table::Table;
use crate::dmi::text::push_char;
use crate::dmi::text::spec_byte_char;
use vstd::prelude::*;
use vstd::slice::slice_subrange;
use vstd::slice::slice_to_vec;
use vstd::string::StringExecFns;

verus! {

/// The offset of the first zero byte of `data` at or after `p`, or the
/// length of `data` where there is none.
pub open spec fn spec_string_end(data: Seq<u8>, p: int) -> int
    decreases data.len() - p,
{
    if p < 0 || p >= data.len() {
        data.len() as int
    } else if data[p] == 0 {
        p
    } else {
        spec_string_end(data, p + 1)
    }
}

/// The characters that bytes stand for.
pub open spec fn spec_chars(bytes: Seq<u8>) -> Seq<char> {
    bytes.map_values(|b: u8| spec_byte_char(b))
}

/// The end of a string is not before its start, no byte before it is
/// zero, and the byte at it is zero unless it is the end of the data.
pub proof fn lemma_string_end(data: Seq<u8>, p: int)
    requires
        0 <= p <= data.len(),
    ensures
        p <= spec_string_end(data, p) <= data.len(),
        forall|i: int| p <= i < spec_string_end(data, p) ==> data[i] != 0,
        spec_string_end(data, p) < data.len() ==> data[spec_string_end(data, p)] == 0,
    decreases data.len() - p,
{
    if p < data.len() && data[p] != 0 {
        lemma_string_end(data, p + 1);
    }
}

/// Reads the string that starts at offset `start` of `data` and ends
/// before the next zero byte, or with the data.  Returns it with the
/// offset at which reading goes on: after the zero byte, where there is
/// one.  At or after the end of the data there is nothing to read.
pub fn read_null_terminated_string(data: &[u8], start: usize) -> (r: (String, usize))
    ensures
        start >= data@.len() ==> r.0@.len() == 0 && r.1 == start,
        start < data@.len() ==> r.0@ == spec_chars(
            data@.subrange(start as int, spec_string_end(data@, start as int)),
        ),
        start < data@.len() ==> r.1 == (if spec_string_end(data@, start as int) < data@.len() {
            spec_string_end(data@, start as int) + 1
        } else {
            data@.len() as int
        }),
{
    let n: usize = data.len();
    let mut cur: String = String::new();
    if start >= n {
        return (cur, start);
    }
    let mut p: usize = start;
    assert(cur@ =~= spec_chars(data@.subrange(start as int, p as int)));
    while p < n
        invariant
            n == data@.len(),
            start <= p <= n,
            start < n,
            spec_string_end(data@, p as int) == spec_string_end(data@, start as int),
            cur@ == spec_chars(data@.subrange(start as int, p as int)),
        decreases n - p,
    {
        let b: u8 = data[p];
        if b == 0 {
            return (cur, p + 1);
        }
        push_char(&mut cur, b as char);
        assert(cur@ =~= spec_chars(data@.subrange(start as int, p as int + 1)));
        p = p + 1;
    }
    (cur, p)
}

/// The string pool that is read from offset `p` of `blob` on, string by
/// string, and the offset that follows it, where `done` holds the strings
/// before `p`.  An empty string after at least one other ends the pool.
/// A pool without strings is two bytes long, of which the first is zero
/// and the second is skipped.  There is no result where `blob` ends
/// before the pool does.
pub open spec fn spec_pool_from(blob: Seq<u8>, p: int, done: Seq<Seq<char>>) -> Option<
    (Seq<Seq<char>>, int),
>
    decreases blob.len() - p,
{
    let end = spec_string_end(blob, p);
    if p < 0 || end < p || end >= blob.len() {
        None
    } else if end > p {
        spec_pool_from(blob, end + 1, done.push(spec_chars(blob.subrange(p, end))))
    } else if done.len() > 0 {
        Some((done, p + 1))
    } else if p + 1 < blob.len() {
        Some((done, p + 2))
    } else {
        None
    }
}

/// The length that the structure at `loc` declares: the second byte of
/// its header.
pub open spec fn spec_declared(blob: Seq<u8>, loc: int) -> int {
    blob[loc + 1] as int
}

/// The number of bytes that are kept of the structure at `loc`: its
/// declared length, and the four bytes of the header where it declares
/// less.
pub open spec fn spec_kept(blob: Seq<u8>, loc: int) -> int {
    if spec_declared(blob, loc) < 4 {
        4
    } else {
        spec_declared(blob, loc)
    }
}

/// The string pool of the structure at `loc` and the offset that follows
/// it.  The pool starts where the declared length ends.
pub open spec fn spec_pool(blob: Seq<u8>, loc: int) -> Option<(Seq<Seq<char>>, int)> {
    spec_pool_from(blob, loc + spec_declared(blob, loc), Seq::empty())
}

/// Whether `blob` holds a whole structure at `loc`: the header, the
/// formatted area and a string pool that ends.
pub open spec fn spec_fits(blob: Seq<u8>, loc: int) -> bool {
    &&& 0 <= loc
    &&& loc + 4 <= blob.len()
    &&& loc + spec_declared(blob, loc) <= blob.len()
    &&& spec_pool(blob, loc) is Some
}

/// The offset that follows the structure at `loc`.
pub open spec fn spec_next(blob: Seq<u8>, loc: int) -> int {
    spec_pool(blob, loc).unwrap().1
}

/// The views of the strings of a pool.
pub open spec fn spec_views(strings: Seq<String>) -> Seq<Seq<char>> {
    strings.map_values(|s: String| s@)
}

/// Whether `t` is the structure that `blob` holds at `loc`.
pub open spec fn spec_is_structure(t: Table, blob: Seq<u8>, loc: int) -> bool {
    &&& t.id == spec_classify(blob[loc])
    &&& t.data.location == loc
    &&& t.data.string_location == loc + spec_declared(blob, loc)
    &&& t.data.next_loc == spec_next(blob, loc)
    &&& t.data.bits@ == blob.subrange(loc, loc + spec_kept(blob, loc))
    &&& spec_views(t.data.strings@) == spec_pool(blob, loc).unwrap().0
}

/// The bytes that stand for the characters of a string.
pub open spec fn spec_string_bytes(s: Seq<char>) -> Seq<u8> {
    s.map_values(|c: char| c as u8)
}

/// The bytes that hold the strings of a pool: those of each string in
/// turn, a zero byte after each.
pub open spec fn spec_encode(strings: Seq<Seq<char>>) -> Seq<u8>
    decreases strings.len(),
{
    if strings.len() == 0 {
        Seq::empty()
    } else {
        spec_encode(strings.drop_last()) + spec_string_bytes(strings.last()) + seq![0u8]
    }
}

/// A pool ends after the place where it starts and inside the table.
pub proof fn lemma_pool_advances(blob: Seq<u8>, p: int, done: Seq<Seq<char>>)
    requires
        spec_pool_from(blob, p, done) is Some,
    ensures
        p < spec_pool_from(blob, p, done).unwrap().1 <= blob.len(),
    decreases blob.len() - p,
{
    let end = spec_string_end(blob, p);
    if end > p {
        lemma_pool_advances(blob, end + 1, done.push(spec_chars(blob.subrange(p, end))));
    }
}

/// No string of a pool is empty.
pub proof fn lemma_pool_strings_nonempty(blob: Seq<u8>, p: int, done: Seq<Seq<char>>)
    requires
        spec_pool_from(blob, p, done) is Some,
        forall|i: int| 0 <= i < done.len() ==> (#[trigger] done[i]).len() > 0,
    ensures
        forall|i: int|
            0 <= i < spec_pool_from(blob, p, done).unwrap().0.len() ==> (#[trigger] spec_pool_from(
                blob,
                p,
                done,
            ).unwrap().0[i]).len() > 0,
    decreases blob.len() - p,
{
    let end = spec_string_end(blob, p);
    if end > p {
        lemma_pool_strings_nonempty(blob, end + 1, done.push(spec_chars(blob.subrange(p, end))));
    }
}

/// What is read from offset `p` on, where the bytes from `start` to `p`
/// hold the strings read so far: either no string at all, and then the
/// pool has started at a zero byte and ends two bytes on; or strings
/// whose bytes, with one more zero byte, are the bytes from `start` to
/// the end.
pub proof fn lemma_pool_encodes(blob: Seq<u8>, start: int, p: int, done: Seq<Seq<char>>)
    requires
        0 <= start <= p,
        spec_pool_from(blob, p, done) is Some,
        blob.subrange(start, p) == spec_encode(done),
    ensures
        ({
            let strings = spec_pool_from(blob, p, done).unwrap().0;
            let end = spec_pool_from(blob, p, done).unwrap().1;
            if strings.len() == 0 {
                blob[start] == 0 && end == start + 2
            } else {
                blob.subrange(start, end) == spec_encode(strings) + seq![0u8]
            }
        }),
    decreases blob.len() - p,
{
    let end = spec_string_end(blob, p);
    lemma_string_end(blob, p);
    if end > p {
        let bytes = blob.subrange(p, end);
        let s = spec_chars(bytes);
        assert(spec_string_bytes(s) =~= bytes) by {
            assert forall|i: int| 0 <= i < bytes.len() implies spec_string_bytes(s)[i]
                == bytes[i] by {
                assert(spec_byte_char(bytes[i]) as u8 == bytes[i]);
            }
        }
        assert(done.push(s).drop_last() =~= done);
        assert(blob.subrange(start, end + 1) =~= blob.subrange(start, p) + bytes + seq![0u8]);
        lemma_pool_encodes(blob, start, end + 1, done.push(s));
    } else if done.len() > 0 {
        assert(blob.subrange(start, p + 1) =~= spec_encode(done) + seq![0u8]);
    } else {
        assert(blob.subrange(start, p).len() == 0);
    }
}

/// A structure that was read ends after the place where it starts and
/// inside the table, and none of its strings is empty.
pub proof fn lemma_structure_advances(t: Table, blob: Seq<u8>, loc: int)
    requires
        spec_fits(blob, loc),
        spec_is_structure(t, blob, loc),
    ensures
        t.data.location < t.data.next_loc <= blob.len(),
        t.data.location <= t.data.string_location < t.data.next_loc,
        forall|i: int| 0 <= i < t.data.strings@.len() ==> (#[trigger] t.data.strings@[i])@.len() > 0,
{
    let start = loc + spec_declared(blob, loc);
    lemma_pool_advances(blob, start, Seq::empty());
    lemma_pool_strings_nonempty(blob, start, Seq::empty());
    assert forall|i: int| 0 <= i < t.data.strings@.len() implies (#[trigger] t.data.strings@[i])@.len()
        > 0 by {
        assert(spec_views(t.data.strings@)[i] == t.data.strings@[i]@);
    }
}

/// Reading a string pool undoes its encoding.  Where the pool of the
/// structure at `loc` holds no string, it starts with a zero byte and is
/// two bytes long.  Where it holds strings, its bytes are those of the
/// strings, a zero byte after each, and one more zero byte.
pub proof fn lemma_pool_is_encoding(blob: Seq<u8>, loc: int)
    requires
        spec_fits(blob, loc),
    ensures
        ({
            let start = loc + spec_declared(blob, loc);
            let strings = spec_pool(blob, loc).unwrap().0;
            if strings.len() == 0 {
                blob[start] == 0 && spec_next(blob, loc) == start + 2
            } else {
                blob.subrange(start, spec_next(blob, loc)) == spec_encode(strings) + seq![0u8]
            }
        }),
{
    let start = loc + spec_declared(blob, loc);
    assert(blob.subrange(start, start) =~= spec_encode(Seq::empty()));
    lemma_pool_encodes(blob, start, start, Seq::empty());
}

/// Builds the error for a table that ends inside a structure.
fn truncated() -> (e: DMIParserError)
    ensures
        e matches DMIParserError::IOError(m) && m@ == "unexpected end of table"@,
{
    DMIParserError::IOError(String::from_str("unexpected end of table"))
}

impl Table {
    /// Reads the first structure of the table.
    pub fn read(blob: &[u8]) -> (r: Result<Table, DMIParserError>)
        ensures
            r is Ok <==> spec_fits(blob@, 0),
            r matches Ok(t) ==> spec_is_structure(t, blob@, 0) && t.data.location
                < t.data.next_loc <= blob@.len(),
            r matches Err(e) ==> e matches DMIParserError::IOError(m) && m@
                == "unexpected end of table"@,
    {
        Table::read_at(blob, 0)
    }

    /// Reads the structure that starts at offset `location` of the
    /// table: the header, the formatted area and the string pool.  It
    /// fails where the table ends before the structure does.
    pub fn read_at(blob: &[u8], location: u64) -> (r: Result<Table, DMIParserError>)
        ensures
            r is Ok <==> spec_fits(blob@, location as int),
            r matches Ok(t) ==> spec_is_structure(t, blob@, location as int) && t.data.location
                < t.data.next_loc <= blob@.len(),
            r matches Err(e) ==> e matches DMIParserError::IOError(m) && m@
                == "unexpected end of table"@,
    {
        let n: usize = blob.len();
        if n < 4 || location > (n - 4) as u64 {
            return Err(truncated());
        }
        let loc: usize = location as usize;
        let declared: usize = blob[loc + 1] as usize;
        if declared > n - loc {
            return Err(truncated());
        }
        let kept: usize = if declared < 4 {
            4
        } else {
            declared
        };
        let start: usize = loc + declared;
        let mut p: usize = start;
        let mut strings: Vec<String> = Vec::new();
        assert(spec_views(strings@) =~= Seq::empty());
        while p < n
            invariant
                n == blob@.len(),
                start <= p <= n,
                loc + 4 <= n,
                loc + kept <= n,
                loc == location,
                declared == spec_declared(blob@, loc as int),
                kept == spec_kept(blob@, loc as int),
                start == loc + declared,
                spec_pool_from(blob@, p as int, spec_views(strings@)) == spec_pool(
                    blob@,
                    loc as int,
                ),
            decreases n - p,
        {
            let (s, next) = read_null_terminated_string(blob, p);
            proof {
                lemma_string_end(blob@, p as int);
            }
            if blob[next - 1] != 0 {
                return Err(truncated());
            }
            if !s.as_str().is_empty() {
                proof {
                    assert(spec_views(strings@.push(s)) =~= spec_views(strings@).push(s@));
                }
                strings.push(s);
                p = next;
            } else if strings.len() == 0 && p + 1 >= n {
                return Err(truncated());
            } else {
                let after: usize = if strings.len() > 0 {
                    p + 1
                } else {
                    p + 2
                };
                let bits: Vec<u8> = slice_to_vec(slice_subrange(blob, loc, loc + kept));
                let t = Table {
                    id: classify(blob[loc]),
                    data: Data {
                        location,
                        string_location: start as u64,
                        next_loc: after as u64,
                        bits,
                        strings,
                    },
                };
                proof {
                    lemma_structure_advances(t, blob@, loc as int);
                }
                return Ok(t);
            }
        }
        Err(truncated())
    }
}

} // verus!
