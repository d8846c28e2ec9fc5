//! The options of a run, as the command line gives them.

use vstd::prelude::*;

verus! {

/// `std::path::PathBuf`, carried through as it was given.
#[verifier::external_type_specification]
#[verifier::external_body]
pub struct ExPathBuf(std::path::PathBuf);

/// The options of a run.
#[derive(Debug)]
pub struct CliArgs {
    /// The delay, in the unit of the ingestion process, between two of its
    /// listing requests.
    pub api_delay: Option<u32>,
    /// The directory that holds the catalog, canonical storage and the
    /// views, where it is not the default one.
    pub data_directory: Option<std::path::PathBuf>,
    /// Keep the catalog as it is: neither remove nor refill it.
    pub skip_db_regen: bool,
    /// Taken from the command line and not read by the archive run, which
    /// writes the metadata file of every post with media.
    pub skip_metadata_files: bool,
    /// Archive only: build no views.
    pub skip_generators: bool,
    /// Empty canonical storage before archiving.
    pub clean_data_directory: bool,
}

/// What is done to the directory of canonical storage before a run.
#[derive(Clone, Copy, Debug, PartialEq, Eq, Structural)]
pub enum StoragePreparation {
    /// It exists and is kept with what it holds.
    Keep,
    /// It does not exist and is created.
    Create,
    /// It exists and is removed with what it holds, then created anew.
    Recreate,
}

impl CliArgs {
    /// Whether the catalog file is removed before the run: it is where it
    /// exists and the catalog is to be refilled.
    pub fn removes_catalog(&self, catalog_exists: bool) -> (removes: bool)
        ensures
            removes == (catalog_exists && !self.skip_db_regen),
    {
        catalog_exists && !self.skip_db_regen
    }

    /// What is done to the directory of canonical storage before the run.
    pub fn storage_preparation(&self, storage_exists: bool) -> (preparation: StoragePreparation)
        ensures
            preparation == if !storage_exists {
                StoragePreparation::Create
            } else if self.clean_data_directory {
                StoragePreparation::Recreate
            } else {
                StoragePreparation::Keep
            },
    {
        if !storage_exists {
            StoragePreparation::Create
        } else if self.clean_data_directory {
            StoragePreparation::Recreate
        } else {
            StoragePreparation::Keep
        }
    }
}

} // verus!
