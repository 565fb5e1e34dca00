//! Applies a sparse set of cell edits to a spreadsheet's cell grid and
//! drives a backup / temporary-file / atomic-rename commit of the result.
//!
//! Reading and writing the document itself, and the file operations, are done
//! by the caller; this crate decides what gets written and in which order the
//! durable commit proceeds.

pub mod cell;
pub mod changeset;
pub mod merge;
pub mod commit;

pub use cell::{
    output_of_edit, output_of_source, CellCoordinate, CellValue, Edit, OutputCell, SourceCell,
    DATE_TIME_FORMAT,
};
pub use changeset::Changeset;
pub use commit::{commit_begin, commit_step, CommitAction, CommitError, CommitState};
pub use merge::{merge_sheet, merge_workbook, MergeError, OutputSheet, SourceSheet};
