//! Conversion outcomes: the supported triple is extracted losslessly, the
//! two flagged triples raise the fatal signal, and every other triple is
//! declared not applicable.

use superlu::{
    Compressed, CompressedColumnStore, Conversion, FromSuperMatrix, MatrixTag, NumericTag,
    RawSuperMatrix, Store, SuperMatrix, Variant, convert,
};

fn column_handle(
    rows: usize,
    columns: usize,
    nonzeros: usize,
    values: Vec<f64>,
    indices: Vec<usize>,
    offsets: Vec<usize>,
    numeric: NumericTag,
    shape: MatrixTag,
) -> SuperMatrix {
    SuperMatrix::from_raw(RawSuperMatrix {
        rows,
        columns,
        numeric,
        shape,
        store: Store::CompressedColumn(CompressedColumnStore {
            nonzeros,
            values: values.into_iter().map(f64::to_bits).collect(),
            indices,
            offsets,
        }),
    })
}

fn plain_handle(store: Store, numeric: NumericTag, shape: MatrixTag) -> SuperMatrix {
    SuperMatrix::from_raw(RawSuperMatrix {
        rows: 4,
        columns: 4,
        numeric,
        shape,
        store,
    })
}

fn as_floats(bits: &[u64]) -> Vec<f64> {
    bits.iter().copied().map(f64::from_bits).collect()
}

#[test]
fn converts_the_supported_triple() {
    let m = column_handle(
        3,
        3,
        4,
        vec![1.0, 2.0, 3.0, 4.0],
        vec![0, 2, 1, 2],
        vec![0, 1, 2, 4],
        NumericTag::Double,
        MatrixTag::General,
    );
    match convert(&m) {
        Conversion::Converted(c) => {
            assert_eq!(c.rows, 3);
            assert_eq!(c.columns, 3);
            assert_eq!(c.nonzeros, 4);
            assert_eq!(c.variant, Variant::Column);
            assert_eq!(as_floats(&c.values), vec![1.0, 2.0, 3.0, 4.0]);
            assert_eq!(c.indices, vec![0, 2, 1, 2]);
            assert_eq!(c.offsets, vec![0, 1, 2, 4]);
        }
        _ => panic!("the supported triple must convert"),
    }
}

#[test]
fn from_super_matrix_converts_the_supported_triple() {
    let m = column_handle(
        3,
        3,
        4,
        vec![1.0, 2.0, 3.0, 4.0],
        vec![0, 2, 1, 2],
        vec![0, 1, 2, 4],
        NumericTag::Double,
        MatrixTag::General,
    );
    let c = Compressed::from_super_matrix(&m).expect("the supported triple must convert");
    assert_eq!(c.rows, 3);
    assert_eq!(c.columns, 3);
    assert_eq!(c.nonzeros, 4);
    assert_eq!(c.variant, Variant::Column);
    assert_eq!(as_floats(&c.values), vec![1.0, 2.0, 3.0, 4.0]);
    assert_eq!(c.indices, vec![0, 2, 1, 2]);
    assert_eq!(c.offsets, vec![0, 1, 2, 4]);
}

#[test]
fn converted_matrix_has_the_compressed_shape() {
    let m = column_handle(
        4,
        2,
        3,
        vec![0.5, -1.0, 8.25],
        vec![0, 3, 1],
        vec![0, 2, 3],
        NumericTag::Double,
        MatrixTag::General,
    );
    match convert(&m) {
        Conversion::Converted(c) => {
            assert_eq!(c.values.len(), c.nonzeros);
            assert_eq!(c.indices.len(), c.nonzeros);
            assert_eq!(c.offsets.len(), c.columns + 1);
            assert_eq!(c.offsets[0], 0);
            assert_eq!(c.offsets[c.columns], c.nonzeros);
            assert!(c.offsets.windows(2).all(|w| w[0] <= w[1]));
            assert!(c.indices.iter().all(|&i| i < c.rows));
        }
        _ => panic!("the supported triple must convert"),
    }
}

#[test]
fn converts_the_empty_matrix() {
    let m = column_handle(
        0,
        0,
        0,
        vec![],
        vec![],
        vec![0],
        NumericTag::Double,
        MatrixTag::General,
    );
    match convert(&m) {
        Conversion::Converted(c) => {
            assert_eq!(c.rows, 0);
            assert_eq!(c.columns, 0);
            assert_eq!(c.nonzeros, 0);
            assert_eq!(c.values, vec![]);
            assert_eq!(c.indices, vec![]);
            assert_eq!(c.offsets, vec![0]);
        }
        _ => panic!("the empty matrix must convert"),
    }
}

#[test]
fn converts_zero_nonzeros_with_populated_offsets() {
    let m = column_handle(
        2,
        3,
        0,
        vec![],
        vec![],
        vec![0, 0, 0, 0],
        NumericTag::Double,
        MatrixTag::General,
    );
    match convert(&m) {
        Conversion::Converted(c) => {
            assert_eq!(c.values, vec![]);
            assert_eq!(c.indices, vec![]);
            assert_eq!(c.offsets, vec![0, 0, 0, 0]);
        }
        _ => panic!("a matrix without nonzeros must convert"),
    }
}

#[test]
fn unrecognized_triples_are_not_applicable() {
    let single = column_handle(
        1,
        1,
        0,
        vec![],
        vec![],
        vec![0, 0],
        NumericTag::Single,
        MatrixTag::General,
    );
    assert!(matches!(convert(&single), Conversion::NotApplicable));

    let complex = column_handle(
        1,
        1,
        0,
        vec![],
        vec![],
        vec![0, 0],
        NumericTag::DoubleComplex,
        MatrixTag::TriangularLower,
    );
    assert!(matches!(convert(&complex), Conversion::NotApplicable));

    let row = plain_handle(Store::CompressedRow, NumericTag::Double, MatrixTag::General);
    assert!(matches!(convert(&row), Conversion::NotApplicable));

    let dense = plain_handle(Store::Dense, NumericTag::Double, MatrixTag::General);
    assert!(matches!(convert(&dense), Conversion::NotApplicable));

    let supernodal = plain_handle(
        Store::SupernodalColumn,
        NumericTag::Double,
        MatrixTag::General,
    );
    assert!(matches!(convert(&supernodal), Conversion::NotApplicable));

    let permuted_single = plain_handle(
        Store::PermutedCompressedColumn,
        NumericTag::Single,
        MatrixTag::General,
    );
    assert!(matches!(convert(&permuted_single), Conversion::NotApplicable));
}

#[test]
fn from_super_matrix_declines_an_unrecognized_triple() {
    let dense = plain_handle(Store::Dense, NumericTag::Double, MatrixTag::General);
    assert!(Compressed::from_super_matrix(&dense).is_none());
}

#[test]
fn flagged_triples_raise_the_fatal_signal() {
    let non_general = column_handle(
        1,
        1,
        0,
        vec![],
        vec![],
        vec![0, 0],
        NumericTag::Double,
        MatrixTag::SymmetricLower,
    );
    assert!(matches!(convert(&non_general), Conversion::Unimplemented));

    let permuted = plain_handle(
        Store::PermutedCompressedColumn,
        NumericTag::Double,
        MatrixTag::General,
    );
    assert!(matches!(convert(&permuted), Conversion::Unimplemented));

    let permuted_triangular = plain_handle(
        Store::PermutedCompressedColumn,
        NumericTag::Double,
        MatrixTag::TriangularUpperUnit,
    );
    assert!(matches!(
        convert(&permuted_triangular),
        Conversion::Unimplemented
    ));
}

#[test]
fn conversion_leaves_the_handle_usable() {
    let m = column_handle(
        2,
        2,
        1,
        vec![6.5],
        vec![1],
        vec![0, 1, 1],
        NumericTag::Double,
        MatrixTag::General,
    );
    let first = convert(&m);
    let second = convert(&m);
    assert!(matches!(first, Conversion::Converted(_)));
    assert!(matches!(second, Conversion::Converted(_)));
    let back = m.into_raw();
    match back.store {
        Store::CompressedColumn(s) => assert_eq!(as_floats(&s.values), vec![6.5]),
        _ => panic!("store variant changed"),
    }
}
