//! The run configuration, as the settings collaborator hands it over.

use vstd::prelude::*;

verus! {

/// Where the data files live.
#[derive(Debug)]
pub struct Settings {
    pub data_folder: String,
}

} // verus!
