//! Conversion of the supported native storage variant into a portable
//! compressed sparse matrix, and the typed outcomes for every other
//! variant triple.

use vstd::prelude::*;

use crate::handle::{RawSuperMatrix, Store, SuperMatrix};
use crate::tags::{MatrixTag, NumericTag};
use vstd::pervasive::unreached;

verus! {

/// The major order of a compressed sparse matrix.
#[derive(Clone, Copy, Debug, PartialEq, Eq, Structural)]
pub enum Variant {
    /// Column-major: `indices` holds row indices and `offsets` marks
    /// column starts.
    Column,
    /// Row-major: `indices` holds column indices and `offsets` marks row
    /// starts.
    Row,
}

/// A portable compressed sparse matrix, fully independent of the native
/// record it was extracted from.  Values are held as the 64-bit patterns
/// of double-precision entries.
pub struct Compressed {
    /// The number of rows.
    pub rows: usize,
    /// The number of columns.
    pub columns: usize,
    /// The number of nonzero entries.
    pub nonzeros: usize,
    /// The major order.
    pub variant: Variant,
    /// The bit patterns of the nonzero values, one per nonzero.
    pub values: Vec<u64>,
    /// The minor index of each nonzero, parallel to `values`.
    pub indices: Vec<usize>,
    /// The starting position of each major index in `values` and
    /// `indices`, one entry per major index plus a terminal entry.
    pub offsets: Vec<usize>,
}

impl Compressed {
    /// Shape invariant of a column-major compressed sparse matrix: the
    /// parallel buffers are as long as the nonzero count, the offsets
    /// run over the columns and climb from zero to the nonzero count,
    /// and every row index is in range.
    pub open spec fn wf(&self) -> bool {
        &&& self.variant is Column
        &&& self.values@.len() == self.nonzeros
        &&& self.indices@.len() == self.nonzeros
        &&& self.offsets@.len() == self.columns + 1
        &&& self.offsets@[0] == 0
        &&& self.offsets@[self.columns as int] == self.nonzeros
        &&& forall|i: int, j: int|
            0 <= i <= j <= self.columns ==> self.offsets@[i] <= self.offsets@[j]
        &&& forall|k: int| 0 <= k < self.nonzeros ==> self.indices@[k] < self.rows
    }
}

/// The outcome of inspecting a native record for conversion.
pub enum Conversion {
    /// The record carried the supported variant triple; its contents
    /// stand here, deeply copied.
    Converted(Compressed),
    /// The record's variant triple is recognized but outside every
    /// implemented case: nothing applies, and the caller decides.
    NotApplicable,
    /// The record's variant triple is one of the two flagged,
    /// recognized-but-unimplemented cases.  The signal is fatal: the
    /// caller must not continue past it with this record.
    Unimplemented,
}

/// The one variant triple the conversion extracts: compressed-column
/// storage, double-precision entries, a general matrix.
pub open spec fn supported_triple(raw: RawSuperMatrix) -> bool {
    &&& raw.store is CompressedColumn
    &&& raw.numeric is Double
    &&& raw.shape is General
}

/// The two variant triples that are recognized but not implemented:
/// compressed-column storage of double-precision entries for any
/// non-general matrix type, and permuted compressed-column storage of
/// double-precision entries for any matrix type.
pub open spec fn flagged_unimplemented(raw: RawSuperMatrix) -> bool {
    ||| (raw.store is CompressedColumn && raw.numeric is Double && !(raw.shape is General))
    ||| (raw.store is PermutedCompressedColumn && raw.numeric is Double)
}

/// What a lossless extraction of a compressed-column record looks like:
/// the dimensions are taken over, the output is column-major, and the
/// three buffers hold exactly the record's contents.
pub open spec fn converted_from(c: Compressed, raw: RawSuperMatrix) -> bool {
    &&& raw.store matches Store::CompressedColumn(s)
    &&& c.rows == raw.rows
    &&& c.columns == raw.columns
    &&& c.nonzeros == s.nonzeros
    &&& c.variant is Column
    &&& c.values@ == s.values@
    &&& c.indices@ == s.indices@
    &&& c.offsets@ == s.offsets@
}

/// Copies the entries of a vector into a fresh one.
fn copy_entries<T: Copy>(v: &Vec<T>) -> (r: Vec<T>)
    ensures
        r@ == v@,
{
    let mut r: Vec<T> = Vec::new();
    for i in 0..v.len()
        invariant
            r@ == v@.subrange(0, i as int),
    {
        r.push(v[i]);
        assert(r@ =~= v@.subrange(0, i + 1));
    }
    assert(r@ =~= v@);
    r
}

/// Inspects a native record and either extracts it, or says exactly why
/// not.  The record is only read: it still owns its memory afterward.
///
/// The supported triple yields a deep copy with the shape invariant; the
/// two flagged triples yield the fatal `Unimplemented` signal; every
/// other triple yields `NotApplicable`, never a fabricated matrix.
pub fn convert(m: &SuperMatrix) -> (r: Conversion)
    requires
        m.raw.wf(),
    ensures
        r is Converted <==> supported_triple(m.raw),
        r is Unimplemented <==> flagged_unimplemented(m.raw),
        r is NotApplicable <==> (!supported_triple(m.raw) && !flagged_unimplemented(m.raw)),
        r matches Conversion::Converted(c) ==> converted_from(c, m.raw) && c.wf(),
{
    let raw = &m.raw;
    match (&raw.store, &raw.numeric, &raw.shape) {
        (Store::CompressedColumn(s), NumericTag::Double, MatrixTag::General) => {
            let values = copy_entries(&s.values);
            let indices = copy_entries(&s.indices);
            let offsets = copy_entries(&s.offsets);
            Conversion::Converted(
                Compressed {
                    rows: raw.rows,
                    columns: raw.columns,
                    nonzeros: s.nonzeros,
                    variant: Variant::Column,
                    values,
                    indices,
                    offsets,
                },
            )
        },
        (Store::CompressedColumn(_), NumericTag::Double, _) => Conversion::Unimplemented,
        (Store::PermutedCompressedColumn, NumericTag::Double, _) => Conversion::Unimplemented,
        _ => Conversion::NotApplicable,
    }
}

/// A type capable of instantiating itself from a super matrix.
pub trait FromSuperMatrix: Sized {
    /// The records on which the conversion may be asked for at all:
    /// those it neither distrusts nor answers with the fatal signal.
    spec fn admissible(m: &SuperMatrix) -> bool;

    /// The records from which an instance is owed.
    spec fn applicable(m: &SuperMatrix) -> bool;

    /// What the instance extracted from a record holds.
    spec fn extracted(r: &Self, m: &SuperMatrix) -> bool;

    /// Create an instance from a super matrix, or say that no case
    /// applies.
    fn from_super_matrix(m: &SuperMatrix) -> (r: Option<Self>)
        requires
            Self::admissible(m),
        ensures
            match r {
                Some(c) => Self::applicable(m) && Self::extracted(&c, m),
                None => !Self::applicable(m),
            },
    ;
}

impl FromSuperMatrix for Compressed {
    /// The record is trusted to be internally consistent and is not one
    /// of the two flagged triples, whose fatal signal this interface
    /// cannot carry.
    open spec fn admissible(m: &SuperMatrix) -> bool {
        m.raw.wf() && !flagged_unimplemented(m.raw)
    }

    open spec fn applicable(m: &SuperMatrix) -> bool {
        supported_triple(m.raw)
    }

    open spec fn extracted(r: &Self, m: &SuperMatrix) -> bool {
        converted_from(*r, m.raw) && r.wf()
    }

    fn from_super_matrix(m: &SuperMatrix) -> (r: Option<Compressed>) {
        match convert(m) {
            Conversion::Converted(c) => Some(c),
            Conversion::NotApplicable => None,
            Conversion::Unimplemented => unreached(),
        }
    }
}

} // verus!
