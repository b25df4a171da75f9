//! The name and text of one loaded item file, as the loading collaborator
//! hands them to the validator.

use vstd::prelude::*;

verus! {

/// One file's name and full text.
#[derive(Debug)]
pub struct FileContents {
    pub name: String,
    pub contents: String,
}

} // verus!
