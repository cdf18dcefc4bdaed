//! Deletion requests from the UI layer.
//!
//! The engine only carries the request value; moving the named files to the
//! platform trash is file-system work done by the surrounding application.

use vstd::prelude::*;

verus! {

/// A request to delete a set of files, by path, in request order.
#[derive(Clone, Debug)]
pub struct DeleteFilesEvent {
    pub files: Vec<String>,
}

impl DeleteFilesEvent {
    pub fn new(files: Vec<String>) -> (r: DeleteFilesEvent)
        ensures
            r.files == files,
    {
        DeleteFilesEvent { files }
    }

    /// The paths to delete, in request order.
    pub fn files(&self) -> (r: &Vec<String>)
        ensures
            r == &self.files,
    {
        &self.files
    }
}

} // verus!
