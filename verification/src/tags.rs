//! The three discriminators carried by a native matrix record, and the
//! deallocation routine that each storage variant calls for.

use vstd::prelude::*;

verus! {

/// The storage-type tag of a native matrix record: which physical layout
/// its storage block uses.
#[derive(Clone, Copy, Debug, PartialEq, Eq, Structural)]
pub enum StorageTag {
    /// Compressed-column storage.
    CompressedColumn,
    /// Compressed-column storage, column-permuted.
    PermutedCompressedColumn,
    /// Compressed-row storage.
    CompressedRow,
    /// Supernodal storage, column-wise.
    SupernodalColumn,
    /// Supernodal storage, column-wise and permuted.
    PermutedSupernodalColumn,
    /// Supernodal storage, row-wise.
    SupernodalRow,
    /// Dense storage.
    Dense,
    /// Distributed compressed-row storage; no deallocation routine of the
    /// native library applies to it here.
    DistributedCompressedRow,
}

/// The numeric-type tag of a native matrix record: the scalar type of its
/// entries.
#[derive(Clone, Copy, Debug, PartialEq, Eq, Structural)]
pub enum NumericTag {
    /// Single-precision real entries.
    Single,
    /// Double-precision real entries.
    Double,
    /// Single-precision complex entries.
    Complex,
    /// Double-precision complex entries.
    DoubleComplex,
}

/// The matrix-type tag of a native matrix record: the mathematical shape
/// that the entries are understood to describe.
#[derive(Clone, Copy, Debug, PartialEq, Eq, Structural)]
pub enum MatrixTag {
    /// A general matrix.
    General,
    /// Lower triangular, unit diagonal.
    TriangularLowerUnit,
    /// Upper triangular, unit diagonal.
    TriangularUpperUnit,
    /// Lower triangular.
    TriangularLower,
    /// Upper triangular.
    TriangularUpper,
    /// Symmetric, lower half stored.
    SymmetricLower,
    /// Symmetric, upper half stored.
    SymmetricUpper,
    /// Hermitian, lower half stored.
    HermitianLower,
    /// Hermitian, upper half stored.
    HermitianUpper,
}

/// The native deallocation routine that a teardown dispatches to.  Each
/// storage variant has exactly one correct routine; calling any other is
/// undefined behavior in the native library.
#[derive(Clone, Copy, Debug, PartialEq, Eq, Structural)]
pub enum FreeRoutine {
    /// Free a compressed-column store.
    CompressedColumn,
    /// Free a permuted compressed-column store.
    PermutedCompressedColumn,
    /// Free a compressed-row store.
    CompressedRow,
    /// Free a supernodal store; shared by all three supernodal variants.
    Supernodal,
    /// Free a dense store.
    Dense,
    /// Free nothing: the tag is outside the table, and teardown must not
    /// attempt any routine.
    NoOp,
}

/// The deallocation table: the one routine that each storage-type tag
/// calls for.
pub open spec fn free_routine_of(tag: StorageTag) -> FreeRoutine {
    match tag {
        StorageTag::CompressedColumn => FreeRoutine::CompressedColumn,
        StorageTag::PermutedCompressedColumn => FreeRoutine::PermutedCompressedColumn,
        StorageTag::CompressedRow => FreeRoutine::CompressedRow,
        StorageTag::SupernodalColumn => FreeRoutine::Supernodal,
        StorageTag::PermutedSupernodalColumn => FreeRoutine::Supernodal,
        StorageTag::SupernodalRow => FreeRoutine::Supernodal,
        StorageTag::Dense => FreeRoutine::Dense,
        StorageTag::DistributedCompressedRow => FreeRoutine::NoOp,
    }
}

/// Dispatches a storage-type tag to its deallocation routine.  A caller
/// that owns a native record fires exactly the returned routine, and no
/// other, when tearing the record down.
pub fn free_routine_for(tag: StorageTag) -> (r: FreeRoutine)
    ensures
        r == free_routine_of(tag),
{
    match tag {
        StorageTag::CompressedColumn => FreeRoutine::CompressedColumn,
        StorageTag::PermutedCompressedColumn => FreeRoutine::PermutedCompressedColumn,
        StorageTag::CompressedRow => FreeRoutine::CompressedRow,
        StorageTag::SupernodalColumn => FreeRoutine::Supernodal,
        StorageTag::PermutedSupernodalColumn => FreeRoutine::Supernodal,
        StorageTag::SupernodalRow => FreeRoutine::Supernodal,
        StorageTag::Dense => FreeRoutine::Dense,
        StorageTag::DistributedCompressedRow => FreeRoutine::NoOp,
    }
}

} // verus!
