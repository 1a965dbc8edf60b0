//! What the engine reports of the files of a column family.
use vstd::prelude::*;

verus! {

/// The files of a column family, level by level.
pub struct ColumnFamilyMetaData {
    /// Name of the column family
    pub name: String,
    /// The size of all sst files under this column family
    pub size: u64,
    /// The number of files under this column family
    pub file_count: usize,
    /// metadata of each level under this column family
    pub levels: Vec<LevelMetaData>,
}

/// The files of one level.
pub struct LevelMetaData {
    /// The level of the current LevelMetaData.
    pub level: i32,
    /// The sst files under the current LevelMetaData.
    pub files: Vec<SstFileMetaData>,
}

/// One sst file.
pub struct SstFileMetaData {
    /// The relative file name
    pub name: String,
    /// Size of the file
    pub size: u64,
    /// Smallest user defined key in the file
    pub smallest_key: Option<Vec<u8>>,
    /// Largest user defined key in the file
    pub largest_key: Option<Vec<u8>>,
}

} // verus!
