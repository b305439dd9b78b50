use crate::dmi::entrypoint::spec_entrypoint;
use crate::dmi::entrypoint::Entrypoint;
use crate::dmi::err::DMIParserError;
use crate::dmi::table::reader::spec_fits;
use crate::dmi::table::reader::spec_is_structure;
use crate::dmi::table::reader::spec_next;
use crate::dmi::table::Table;
use vstd::prelude::*;

verus! {

/// Why a walk over the table stopped.
#[derive(Debug, Clone, Copy, PartialEq, Eq, Structural)]
pub enum WalkStop {
    /// The structure that ends the table was reached.
    EndOfTable,
    /// A structure of the type that was asked for was reached.
    Found,
    /// The next structure would start after the size that the entry
    /// point declares.
    SizeExceeded,
    /// As many structures were passed as a walk may pass.
    CapReached,
}

/// Where a walk stopped, and why.
#[derive(Debug)]
pub struct Walk {
    /// The structure that was read last.
    pub table: Table,
    /// Why the walk went no further.
    pub stop: WalkStop,
    /// The number of structures that were passed before.
    pub steps: usize,
}

/// The greatest number of structures that a walk passes.
pub const WALK_CAP: usize = 1000;

/// Why a walk in search of type `id` stops at the structure at `loc`, if
/// it does: the end of the table comes before a match, and a match before
/// the size.
pub open spec fn spec_stop_at(blob: Seq<u8>, id: u8, size: u32, loc: int) -> Option<WalkStop> {
    if blob[loc] == 127 {
        Some(WalkStop::EndOfTable)
    } else if blob[loc] == id {
        Some(WalkStop::Found)
    } else if spec_next(blob, loc) > size {
        Some(WalkStop::SizeExceeded)
    } else {
        None
    }
}

/// The offset at which a walk stops, the reason, and the number of
/// structures passed, for a walk that has reached offset `loc` after
/// `done` structures.  There is no result where the table ends inside a
/// structure that the walk reads.
pub open spec fn spec_walk(blob: Seq<u8>, id: u8, size: u32, loc: int, done: nat) -> Option<
    (int, WalkStop, nat),
>
    decreases WALK_CAP - done,
{
    if !spec_fits(blob, loc) {
        None
    } else if done >= WALK_CAP {
        Some((loc, WalkStop::CapReached, done))
    } else {
        match spec_stop_at(blob, id, size, loc) {
            Some(stop) => Some((loc, stop, done)),
            None => spec_walk(blob, id, size, spec_next(blob, loc), done + 1),
        }
    }
}

/// A walk passes no more structures than the cap allows, whatever the
/// table holds, and it gives the cap as its reason only when it has
/// passed that many.  Where it stops before, the structure at which it
/// stops gives the reason.
pub proof fn lemma_walk_bounded(blob: Seq<u8>, id: u8, size: u32, loc: int, done: nat)
    requires
        done <= WALK_CAP,
    ensures
        spec_walk(blob, id, size, loc, done) matches Some(w) ==> {
            &&& done <= w.2 <= WALK_CAP
            &&& spec_fits(blob, w.0)
            &&& (w.1 == WalkStop::CapReached <==> w.2 == WALK_CAP)
            &&& (w.2 < WALK_CAP ==> spec_stop_at(blob, id, size, w.0) == Some(w.1))
        },
    decreases WALK_CAP - done,
{
    if spec_fits(blob, loc) && done < WALK_CAP && spec_stop_at(blob, id, size, loc) is None {
        lemma_walk_bounded(blob, id, size, spec_next(blob, loc), done + 1);
    }
}

/// The offset of the structure that is reached from the one at `loc`
/// after `k` steps, each to the structure that follows.
pub open spec fn spec_nth(blob: Seq<u8>, loc: int, k: nat) -> int
    decreases k,
{
    if k == 0 {
        loc
    } else {
        spec_nth(blob, spec_next(blob, loc), (k - 1) as nat)
    }
}

/// A walk goes from structure to structure in the order of the table:
/// it stops at the structure that it reaches after as many steps as it
/// counts, and each structure that it has passed is whole and gives no
/// reason to stop.
pub proof fn lemma_walk_path(blob: Seq<u8>, id: u8, size: u32, loc: int, done: nat)
    requires
        done <= WALK_CAP,
        spec_walk(blob, id, size, loc, done) is Some,
    ensures
        ({
            let w = spec_walk(blob, id, size, loc, done).unwrap();
            &&& done <= w.2
            &&& w.0 == spec_nth(blob, loc, (w.2 - done) as nat)
            &&& forall|j: nat|
                j < w.2 - done ==> spec_fits(blob, #[trigger] spec_nth(blob, loc, j))
                    && spec_stop_at(blob, id, size, spec_nth(blob, loc, j)) is None
        }),
    decreases WALK_CAP - done,
{
    if done < WALK_CAP && spec_stop_at(blob, id, size, loc) is None {
        let next = spec_next(blob, loc);
        lemma_walk_path(blob, id, size, next, done + 1);
        let w = spec_walk(blob, id, size, loc, done).unwrap();
        assert forall|j: nat| j < w.2 - done implies spec_fits(
            blob,
            #[trigger] spec_nth(blob, loc, j),
        ) && spec_stop_at(blob, id, size, spec_nth(blob, loc, j)) is None by {
            if j > 0 {
                assert(spec_nth(blob, loc, j) == spec_nth(blob, next, (j - 1) as nat));
            }
        }
    }
}

/// A walk passes every structure that is whole and gives no reason to
/// stop: where that holds of the first `n` structures from `loc` on, the
/// walk from `loc` ends as the walk from the structure after them does.
pub proof fn lemma_walk_passes(blob: Seq<u8>, id: u8, size: u32, loc: int, done: nat, n: nat)
    requires
        done + n <= WALK_CAP,
        forall|j: nat|
            j < n ==> spec_fits(blob, #[trigger] spec_nth(blob, loc, j)) && spec_stop_at(
                blob,
                id,
                size,
                spec_nth(blob, loc, j),
            ) is None,
    ensures
        spec_walk(blob, id, size, loc, done) == spec_walk(
            blob,
            id,
            size,
            spec_nth(blob, loc, n),
            done + n,
        ),
    decreases n,
{
    if n > 0 {
        let next = spec_next(blob, loc);
        assert(spec_nth(blob, loc, 0) == loc);
        assert forall|j: nat| j < n - 1 implies spec_fits(
            blob,
            #[trigger] spec_nth(blob, next, j),
        ) && spec_stop_at(blob, id, size, spec_nth(blob, next, j)) is None by {
            assert(spec_nth(blob, loc, j + 1) == spec_nth(blob, next, j));
        }
        lemma_walk_passes(blob, id, size, next, done + 1, (n - 1) as nat);
    }
}

/// A walk over a table without an end is given up at the cap.  Where the
/// first thousand structures are whole and none of them ends the table,
/// is of the type asked for, or is followed by an offset beyond the size,
/// the walk stops at the structure after them with the cap as its reason
/// and a thousand steps, if that structure is whole; it fails if the
/// table ends inside that structure.  The cap can thus be told from a
/// structure that was found and from the end of the table.
pub proof fn lemma_walk_reaches_cap(blob: Seq<u8>, id: u8, size: u32)
    requires
        forall|j: nat|
            j < WALK_CAP ==> spec_fits(blob, #[trigger] spec_nth(blob, 0, j)) && spec_stop_at(
                blob,
                id,
                size,
                spec_nth(blob, 0, j),
            ) is None,
    ensures
        spec_fits(blob, spec_nth(blob, 0, WALK_CAP as nat)) ==> spec_walk(blob, id, size, 0, 0)
            == Some((spec_nth(blob, 0, WALK_CAP as nat), WalkStop::CapReached, WALK_CAP as nat)),
        !spec_fits(blob, spec_nth(blob, 0, WALK_CAP as nat)) ==> spec_walk(blob, id, size, 0, 0)
            is None,
{
    lemma_walk_passes(blob, id, size, 0, 0, WALK_CAP as nat);
}

/// A walk stops at the first structure that gives a reason.  Where the
/// first `n` structures are whole and give none, and the one after them
/// is whole and gives one before the cap is reached, the walk stops there
/// with that reason and `n` steps.
pub proof fn lemma_walk_stops_at_first_reason(blob: Seq<u8>, id: u8, size: u32, n: nat)
    requires
        n < WALK_CAP,
        forall|j: nat|
            j < n ==> spec_fits(blob, #[trigger] spec_nth(blob, 0, j)) && spec_stop_at(
                blob,
                id,
                size,
                spec_nth(blob, 0, j),
            ) is None,
        spec_fits(blob, spec_nth(blob, 0, n)),
        spec_stop_at(blob, id, size, spec_nth(blob, 0, n)) is Some,
    ensures
        spec_walk(blob, id, size, 0, 0) == Some(
            (spec_nth(blob, 0, n), spec_stop_at(blob, id, size, spec_nth(blob, 0, n)).unwrap(), n),
        ),
{
    lemma_walk_passes(blob, id, size, 0, 0, n);
}

/// Reads an entry point from its bytes.
pub fn decode_entrypoint(ep: &[u8]) -> (r: Result<Entrypoint, DMIParserError>)
    ensures
        match spec_entrypoint(ep@) {
            Some(e) => r == Ok::<Entrypoint, DMIParserError>(e) && e.spec_well_formed(),
            None => r == Err::<Entrypoint, DMIParserError>(DMIParserError::HeaderDataError),
        },
{
    Entrypoint::read(ep)
}

/// Walks the table from the structure at offset `start` on, in search of
/// a structure of type `id`, and tells where the walk stopped and why.
/// It fails where the table ends inside a structure that the walk reads.
pub fn walk_table_from(id: u8, table_size: u32, blob: &[u8], start: u64) -> (r: Result<
    Walk,
    DMIParserError,
>)
    ensures
        r is Ok <==> spec_walk(blob@, id, table_size, start as int, 0) is Some,
        r matches Ok(w) ==> {
            &&& spec_is_structure(
                w.table,
                blob@,
                spec_walk(blob@, id, table_size, start as int, 0).unwrap().0,
            )
            &&& w.stop == spec_walk(blob@, id, table_size, start as int, 0).unwrap().1
            &&& w.steps == spec_walk(blob@, id, table_size, start as int, 0).unwrap().2
            &&& w.steps <= WALK_CAP
            &&& (w.stop == WalkStop::CapReached <==> w.steps == WALK_CAP)
        },
        r matches Err(e) ==> e matches DMIParserError::IOError(m) && m@
            == "unexpected end of table"@,
{
    let mut t: Table = match Table::read_at(blob, start) {
        Ok(t) => t,
        Err(e) => {
            return Err(e);
        },
    };
    let mut i: usize = 0;
    while i < WALK_CAP
        invariant
            i <= WALK_CAP,
            spec_fits(blob@, t.data.location as int),
            spec_is_structure(t, blob@, t.data.location as int),
            spec_walk(blob@, id, table_size, t.data.location as int, i as nat) == spec_walk(
                blob@,
                id,
                table_size,
                start as int,
                0,
            ),
        decreases WALK_CAP - i,
    {
        assert(t.spec_byte(0) == blob@[t.data.location as int]);
        let type_id: u8 = t.id();
        if type_id == 127 {
            return Ok(Walk { table: t, stop: WalkStop::EndOfTable, steps: i });
        }
        if type_id == id {
            return Ok(Walk { table: t, stop: WalkStop::Found, steps: i });
        }
        if t.next_loc() > table_size as u64 {
            return Ok(Walk { table: t, stop: WalkStop::SizeExceeded, steps: i });
        }
        proof {
            reveal_with_fuel(spec_walk, 2);
        }
        t =
        match Table::read_at(blob, t.next_loc()) {
            Ok(n) => n,
            Err(e) => {
                return Err(e);
            },
        };
        i = i + 1;
    }
    Ok(Walk { table: t, stop: WalkStop::CapReached, steps: i })
}

/// Walks the table from its first structure on, in search of a structure
/// of type `id`, and tells where the walk stopped and why.  It fails
/// where the table ends inside a structure that the walk reads.
pub fn walk_table(id: u8, table_size: u32, blob: &[u8]) -> (r: Result<Walk, DMIParserError>)
    ensures
        r is Ok <==> spec_walk(blob@, id, table_size, 0, 0) is Some,
        r matches Ok(w) ==> {
            &&& spec_is_structure(w.table, blob@, spec_walk(blob@, id, table_size, 0, 0).unwrap().0)
            &&& w.stop == spec_walk(blob@, id, table_size, 0, 0).unwrap().1
            &&& w.steps == spec_walk(blob@, id, table_size, 0, 0).unwrap().2
            &&& w.steps <= WALK_CAP
            &&& (w.stop == WalkStop::CapReached <==> w.steps == WALK_CAP)
        },
        r matches Err(e) ==> e matches DMIParserError::IOError(m) && m@
            == "unexpected end of table"@,
{
    walk_table_from(id, table_size, blob, 0)
}

/// Walks the table that an entry point describes, from its first
/// structure on, in search of a structure of type `id`.  The result
/// holds the structure at which the walk stopped and the reason, so that
/// a structure that was found can be told from the end of the table, from
/// a table that goes on after its declared size, and from a walk that was
/// given up at the cap.
pub fn read_raw_table(id: u8, entrypoint: Entrypoint, blob: &[u8]) -> (r: Result<
    Walk,
    DMIParserError,
>)
    ensures
        r is Ok <==> spec_walk(blob@, id, entrypoint.spec_table_size(), 0, 0) is Some,
        r matches Ok(w) ==> {
            &&& spec_is_structure(
                w.table,
                blob@,
                spec_walk(blob@, id, entrypoint.spec_table_size(), 0, 0).unwrap().0,
            )
            &&& w.stop == spec_walk(blob@, id, entrypoint.spec_table_size(), 0, 0).unwrap().1
            &&& w.steps == spec_walk(blob@, id, entrypoint.spec_table_size(), 0, 0).unwrap().2
            &&& w.steps <= WALK_CAP
            &&& (w.stop == WalkStop::CapReached <==> w.steps == WALK_CAP)
        },
        r matches Err(e) ==> e matches DMIParserError::IOError(m) && m@
            == "unexpected end of table"@,
{
    walk_table(id, entrypoint.table_size(), blob)
}

} // verus!
