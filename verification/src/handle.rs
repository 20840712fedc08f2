//! The owned native matrix handle: a plain-valued mirror of the foreign
//! record, with one-shot teardown and one-shot release of ownership.

use vstd::prelude::*;

use crate::tags::{FreeRoutine, MatrixTag, NumericTag, StorageTag, free_routine_for,
    free_routine_of};

verus! {

/// The contents of a compressed-column storage block: the nonzero count,
/// and the three parallel buffers that the layout carries.  Values are
/// held as the 64-bit patterns of the record's double-precision entries;
/// nothing here interprets them.
pub struct CompressedColumnStore {
    /// The number of nonzero entries.
    pub nonzeros: usize,
    /// The bit patterns of the nonzero values, one per nonzero.
    pub values: Vec<u64>,
    /// The row index of each nonzero, parallel to `values`.
    pub indices: Vec<usize>,
    /// The starting position of each column in `values` and `indices`,
    /// one entry per column plus a terminal entry.
    pub offsets: Vec<usize>,
}

impl CompressedColumnStore {
    /// Internal consistency of a compressed-column storage block for a
    /// record with the given dimensions: the buffers have the lengths the
    /// layout prescribes, the offsets climb from zero to the nonzero
    /// count, and every row index is in range.
    pub open spec fn wf(&self, rows: usize, columns: usize) -> bool {
        &&& self.values@.len() == self.nonzeros
        &&& self.indices@.len() == self.nonzeros
        &&& self.offsets@.len() == columns + 1
        &&& self.offsets@[0] == 0
        &&& self.offsets@[columns as int] == self.nonzeros
        &&& forall|i: int, j: int|
            0 <= i <= j <= columns ==> self.offsets@[i] <= self.offsets@[j]
        &&& forall|k: int| 0 <= k < self.nonzeros ==> self.indices@[k] < rows
    }
}

/// The storage block of a native record, one variant per storage-type
/// tag.  Only the compressed-column variant carries its contents: it is
/// the one variant whose layout the conversion reads.  The others are
/// opaque to this crate and are only ever dispatched on.
pub enum Store {
    /// A compressed-column storage block.
    CompressedColumn(CompressedColumnStore),
    /// A permuted compressed-column storage block.
    PermutedCompressedColumn,
    /// A compressed-row storage block.
    CompressedRow,
    /// A supernodal storage block, column-wise.
    SupernodalColumn,
    /// A supernodal storage block, column-wise and permuted.
    PermutedSupernodalColumn,
    /// A supernodal storage block, row-wise.
    SupernodalRow,
    /// A dense storage block.
    Dense,
    /// A distributed compressed-row storage block.
    DistributedCompressedRow,
}

impl Store {
    /// The storage-type tag that this storage block carries.
    pub open spec fn spec_tag(&self) -> StorageTag {
        match self {
            Store::CompressedColumn(_) => StorageTag::CompressedColumn,
            Store::PermutedCompressedColumn => StorageTag::PermutedCompressedColumn,
            Store::CompressedRow => StorageTag::CompressedRow,
            Store::SupernodalColumn => StorageTag::SupernodalColumn,
            Store::PermutedSupernodalColumn => StorageTag::PermutedSupernodalColumn,
            Store::SupernodalRow => StorageTag::SupernodalRow,
            Store::Dense => StorageTag::Dense,
            Store::DistributedCompressedRow => StorageTag::DistributedCompressedRow,
        }
    }

    /// Reads the storage-type tag of this storage block.
    pub fn tag(&self) -> (t: StorageTag)
        ensures
            t == self.spec_tag(),
    {
        match self {
            Store::CompressedColumn(_) => StorageTag::CompressedColumn,
            Store::PermutedCompressedColumn => StorageTag::PermutedCompressedColumn,
            Store::CompressedRow => StorageTag::CompressedRow,
            Store::SupernodalColumn => StorageTag::SupernodalColumn,
            Store::PermutedSupernodalColumn => StorageTag::PermutedSupernodalColumn,
            Store::SupernodalRow => StorageTag::SupernodalRow,
            Store::Dense => StorageTag::Dense,
            Store::DistributedCompressedRow => StorageTag::DistributedCompressedRow,
        }
    }
}

/// A native matrix record, mirrored field for field as plain values: the
/// dimensions, the two remaining tags, and the tagged storage block.  The
/// storage-type tag is the variant of `store`.
pub struct RawSuperMatrix {
    /// The number of rows.
    pub rows: usize,
    /// The number of columns.
    pub columns: usize,
    /// The numeric-type tag.
    pub numeric: NumericTag,
    /// The matrix-type tag.
    pub shape: MatrixTag,
    /// The storage block, tagged by its variant.
    pub store: Store,
}

impl RawSuperMatrix {
    /// The internal consistency that adoption trusts the foreign record
    /// to have.  Nothing validates it; it covers exactly what the
    /// conversion reads, so only the supported variant triple is
    /// concerned by it.
    pub open spec fn wf(&self) -> bool {
        self.store matches Store::CompressedColumn(s) ==> ((self.numeric is Double
            && self.shape is General) ==> s.wf(self.rows, self.columns))
    }
}

/// Exclusive ownership of one native matrix record.  The wrapper is
/// consumed exactly once: either by `teardown`, which names the one
/// deallocation routine its owner must fire, or by `into_raw`, which
/// hands the record back and so disarms teardown for good.  The type
/// system forbids doing both, or either twice.
pub struct SuperMatrix {
    /// The wrapped record.
    pub raw: RawSuperMatrix,
}

impl SuperMatrix {
    /// Adopts a record, asserting that the caller transfers ownership.
    /// Nothing is validated: the record's internal consistency is
    /// trusted.
    pub fn from_raw(raw: RawSuperMatrix) -> (m: SuperMatrix)
        ensures
            m.raw == raw,
    {
        SuperMatrix { raw }
    }

    /// Consumes the wrapper and returns the wrapped record unchanged,
    /// without any teardown: ownership leaves this crate's care, and the
    /// record is never freed on its account.
    pub fn into_raw(self) -> (raw: RawSuperMatrix)
        ensures
            raw == self.raw,
    {
        self.raw
    }

    /// Consumes the wrapper and names the one deallocation routine that
    /// its record's storage variant calls for.  The owner of the native
    /// memory fires exactly that routine, once; for a tag outside the
    /// table the answer is `NoOp` and nothing is to be freed.
    pub fn teardown(self) -> (r: FreeRoutine)
        ensures
            r == free_routine_of(self.raw.store.spec_tag()),
    {
        free_routine_for(self.raw.store.tag())
    }
}

} // verus!
