//! Byte-by-byte comparison of two blobs, as shown in a side-by-side hex view.

pub mod diff;

pub mod cell;

pub mod viewer;

pub use diff::{get_diffs, Diff};
pub use viewer::{FileDetails, Viewer, WhichFile};
