use vstd::prelude::*;

verus! {

/// Why the file of known servers could not be used.
#[derive(Debug, Clone, Copy, PartialEq, Eq, Structural)]
pub enum DataStorageError {
    /// No home directory to keep the file in.
    BadFilesystemConfig,
    /// The file was missing and could not be made.
    CouldntCreateFile,
    /// The file holds something other than a list of servers.
    BadDataInFile,
    /// The list could not be turned into JSON.
    CantSerializeSelf,
    CantReadFromFile,
    CantWriteToFile,
}

} // verus!
