//! Heterogeneous matrices: stacks of rows of differing element types,
//! read and edited by naming the element type, a whole row or one column
//! at a time, through views, or through writers that gather edits to apply
//! later.

mod access_col;
mod access_row;
mod h_col;
mod h_mat;
mod h_mat_ref;
mod iterator;
mod merge;
mod new_writer;
mod row;
mod slicer;
mod writer;

pub use access_col::{
    deref_opt_mut, slot_mut, slot_placed, AccessColMut, AccessColRef, PlaceCol, TakeCol,
};
pub use access_row::{AccessRowDirective, AccessRowMut, AccessRowRef};
pub use h_col::{GetSubCol, GetSubColDirective, HCol};
pub use h_mat::{Extend, HMat};
pub use h_mat_ref::HMatRef;
pub use iterator::HColIter;
pub use merge::{appends, Merge, MergeDirective};
pub use new_writer::NewWriter;
pub use row::{
    cell_of, cleared, deref_opt, lemma_place_grows, lemma_place_then_get, lemma_take_after_place,
    placed, Row,
};
pub use slicer::{Slicer, SlicerDirective};
pub use writer::{
    applies_row, by_priority, edited, lemma_set_seen_by_update, lemma_unset_dominates,
    mods_admissible, run_mods, ApplyWriter, ApplyWriterDirective, GetSubWriter,
    GetSubWriterDirective, HMatWriter, RowMod, Update,
};
