use vstd::prelude::*;

verus! {

/// A point in time (UTC) held as its calendar fields.
#[derive(Clone, Copy, Debug, PartialEq, Eq, Structural)]
pub struct Timestamp {
    pub year: i32,
    pub month: u32,
    pub day: u32,
    pub hour: u32,
    pub minute: u32,
    pub second: u32,
}

impl Timestamp {
    /// Field ranges of a calendar date and a time of day (a leap second allowed).
    pub open spec fn wf(self) -> bool {
        &&& 1 <= self.month <= 12
        &&& 1 <= self.day <= 31
        &&& self.hour < 24
        &&& self.minute < 60
        &&& self.second < 61
    }

    pub fn new(year: i32, month: u32, day: u32, hour: u32, minute: u32, second: u32) -> (r:
        Timestamp)
        ensures
            r == (Timestamp { year, month, day, hour, minute, second }),
    {
        Timestamp { year, month, day, hour, minute, second }
    }
}

/// Metadata of one indexed media file.
#[derive(Clone, Debug)]
pub struct MediaItemMetadata {
    pub id: u64,
    pub name: String,
    pub mime: String,
    pub path: String,
    pub creation_date: Timestamp,
}

impl MediaItemMetadata {
    /// A field-by-field copy.
    pub fn duplicate(&self) -> (r: MediaItemMetadata)
        ensures
            r == *self,
    {
        MediaItemMetadata {
            id: self.id,
            name: self.name.clone(),
            mime: self.mime.clone(),
            path: self.path.clone(),
            creation_date: self.creation_date,
        }
    }
}

/// The errors of the file-system core. `MultipleErrors` collects the per-item
/// failures of a batch operation, in the order in which they occurred.
#[derive(Debug)]
pub enum FileSystemError {
    UnknownId(u64),
    UnknownPath(String),
    InvalidParameters(String),
    FileNotFound(String),
    IOError(String),
    NoParentDirectory(String),
    ImageError(String),
    Other(String),
    MultipleErrors(Vec<FileSystemError>),
}

/// A request to discard the items with these ids.
pub struct DiscardMediaItems {
    pub ids: Vec<u64>,
}

/// A request to confirm the items with these ids into one destination.
pub struct ConfirmMediaItems {
    pub destination: u64,
    pub ids: Vec<u64>,
}

} // verus!
