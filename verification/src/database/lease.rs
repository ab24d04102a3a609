//! Who holds a lease on the store.
//!
//! Any number of read leases may be held at a time, beside each other and
//! beside the write lease. The write lease is held by one transaction at a
//! time: whoever asks for it while it is held must wait until it is given
//! back.

use super::LeaseKind;
use vstd::prelude::*;

verus! {

/// The leases that are held.
#[derive(Debug, Clone, Copy)]
pub struct LeaseTable {
    /// How many read leases are held
    pub readers: usize,
    /// The operation that holds the write lease, if it is held
    pub writer: Option<&'static str>,
}

/// What happens to the leases: one is asked for, or one is given back.
#[derive(Debug, Clone, Copy)]
pub enum LeaseOp {
    /// A lease is asked for
    Request(LeaseKind),
    /// A lease that was granted is given back
    Release(LeaseKind),
}

/// Whether a lease that is asked for is granted at once. A read lease is
/// granted as long as read leases can still be counted; the write lease is
/// granted where nobody holds it.
pub open spec fn is_granted(table: LeaseTable, kind: LeaseKind) -> bool {
    match kind {
        LeaseKind::Read => table.readers < usize::MAX,
        LeaseKind::Write { .. } => table.writer is None,
    }
}

/// The table once a lease was asked for: it holds the lease if the lease was
/// granted, and is unchanged if it was not.
pub open spec fn after_request(table: LeaseTable, kind: LeaseKind) -> LeaseTable {
    if !is_granted(table, kind) {
        table
    } else {
        match kind {
            LeaseKind::Read => LeaseTable {
                readers: (table.readers + 1) as usize,
                writer: table.writer,
            },
            LeaseKind::Write { operation } => LeaseTable {
                readers: table.readers,
                writer: Some(operation),
            },
        }
    }
}

/// The table once a lease was given back.
pub open spec fn after_release(table: LeaseTable, kind: LeaseKind) -> LeaseTable {
    match kind {
        LeaseKind::Read => LeaseTable {
            readers: if table.readers > 0 {
                (table.readers - 1) as usize
            } else {
                0
            },
            writer: table.writer,
        },
        LeaseKind::Write { .. } => LeaseTable { readers: table.readers, writer: None },
    }
}

/// The table after one thing happened.
pub open spec fn after_op(table: LeaseTable, op: LeaseOp) -> LeaseTable {
    match op {
        LeaseOp::Request(kind) => after_request(table, kind),
        LeaseOp::Release(kind) => after_release(table, kind),
    }
}

/// The table after a run of things happened, in order.
pub open spec fn after_ops(table: LeaseTable, ops: Seq<LeaseOp>) -> LeaseTable
    decreases ops.len(),
{
    if ops.len() == 0 {
        table
    } else {
        after_op(after_ops(table, ops.drop_last()), ops.last())
    }
}

/// Whether the thing at position `i` of a run is a request for the write
/// lease that is granted.
pub open spec fn grants_write(table: LeaseTable, ops: Seq<LeaseOp>, i: int) -> bool {
    &&& 0 <= i < ops.len()
    &&& ops[i] matches LeaseOp::Request(kind)
    &&& kind is Write
    &&& is_granted(after_ops(table, ops.take(i)), kind)
}

/// Whether the thing at position `i` of a run gives the write lease back.
pub open spec fn releases_write(ops: Seq<LeaseOp>, i: int) -> bool {
    &&& 0 <= i < ops.len()
    &&& ops[i] matches LeaseOp::Release(kind)
    &&& kind is Write
}

/// As long as the write lease is not given back, it stays held.
proof fn lemma_writer_stays(table: LeaseTable, ops: Seq<LeaseOp>, from: int, to: int)
    requires
        0 <= from <= to <= ops.len(),
        after_ops(table, ops.take(from)).writer is Some,
        forall|k: int| from <= k < to ==> !releases_write(ops, k),
    ensures
        after_ops(table, ops.take(to)).writer is Some,
    decreases to - from,
{
    if from < to {
        lemma_writer_stays(table, ops, from, to - 1);
        assert(ops.take(to).drop_last() =~= ops.take(to - 1));
        assert(ops.take(to).last() == ops[to - 1]);
        assert(!releases_write(ops, to - 1));
    }
}

/// Two write transactions are never in progress at once: between any two
/// grants of the write lease, the write lease was given back.
pub proof fn lemma_single_writer(table: LeaseTable, ops: Seq<LeaseOp>, i: int, j: int)
    requires
        i < j,
        grants_write(table, ops, i),
        grants_write(table, ops, j),
    ensures
        exists|k: int| i < k < j && releases_write(ops, k),
{
    if forall|k: int| i < k < j ==> !releases_write(ops, k) {
        assert(ops.take(i + 1).drop_last() =~= ops.take(i));
        assert(ops.take(i + 1).last() == ops[i]);
        assert(after_ops(table, ops.take(i + 1)).writer is Some);
        lemma_writer_stays(table, ops, i + 1, j);
        assert(false);
    }
}

/// Read leases never stand in the way of each other, nor does the write
/// lease stand in their way: a read lease is granted whatever is held, as
/// long as read leases can still be counted.
pub proof fn lemma_readers_are_not_blocked(table: LeaseTable)
    requires
        table.readers < usize::MAX,
    ensures
        is_granted(table, LeaseKind::Read),
        after_request(table, LeaseKind::Read).writer == table.writer,
        after_request(table, LeaseKind::Read).readers == table.readers + 1,
{
}

impl LeaseTable {
    /// A table in which no lease is held.
    pub fn new() -> (table: LeaseTable)
        ensures
            table.readers == 0,
            table.writer is None,
    {
        LeaseTable { readers: 0, writer: None }
    }

    /// Asks for a lease. The result says whether it is granted; where it is
    /// not, the table is unchanged and the caller must wait and ask again.
    pub fn request(&mut self, kind: LeaseKind) -> (granted: bool)
        ensures
            granted == is_granted(*old(self), kind),
            *final(self) == after_request(*old(self), kind),
    {
        match kind {
            LeaseKind::Read => {
                if self.readers < usize::MAX {
                    self.readers = self.readers + 1;
                    true
                } else {
                    false
                }
            },
            LeaseKind::Write { operation } => {
                if self.writer.is_none() {
                    self.writer = Some(operation);
                    true
                } else {
                    false
                }
            },
        }
    }

    /// Gives back a lease that was granted.
    pub fn release(&mut self, kind: LeaseKind)
        ensures
            *final(self) == after_release(*old(self), kind),
    {
        match kind {
            LeaseKind::Read => {
                if self.readers > 0 {
                    self.readers = self.readers - 1;
                }
            },
            LeaseKind::Write { .. } => {
                self.writer = None;
            },
        }
    }
}

} // verus!
