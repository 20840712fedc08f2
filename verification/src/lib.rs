//! Ownership-safe handling of SuperLU's native matrix records.
//!
//! The crate models the foreign, variant-tagged matrix record as a plain
//! tagged value, decides which native deallocation routine a record's
//! storage variant calls for, and converts the supported variant triple
//! (compressed-column storage, double-precision entries, general matrix)
//! into a portable compressed sparse matrix.  The unsafe edge that reads
//! foreign memory and fires the native routines lives outside this crate
//! and acts only on what these functions decide.

pub mod convert;
pub mod handle;
pub mod tags;

pub use convert::{Compressed, Conversion, FromSuperMatrix, Variant, convert};
pub use handle::{CompressedColumnStore, RawSuperMatrix, Store, SuperMatrix};
pub use tags::{FreeRoutine, MatrixTag, NumericTag, StorageTag, free_routine_for, free_routine_of};
