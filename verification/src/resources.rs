//! Resource loading: the root path of the asset tree and the checks on what
//! is read from it. The reading itself is I/O and lives with the caller.

use vstd::prelude::*;

verus! {

/// Why a resource could not be loaded.
#[derive(Debug, PartialEq, Eq, Structural, Clone, Copy)]
pub enum Error {
    /// Reading the resource file failed.
    Io,
    /// The resource holds an interior nul byte, so it cannot become a
    /// C string.
    FileContainsNil,
    /// The running executable's path, which anchors the asset tree, could
    /// not be found.
    FailedToGetExePath,
}

/// The root of the asset tree; resource names are resolved under it.
pub struct Resources {
    pub root_path: String,
}

impl Resources {
    /// A resource tree rooted at the given path.
    pub fn new(root_path: String) -> (r: Self)
        ensures
            r.root_path == root_path,
    {
        Self { root_path }
    }
}

/// Checks bytes read from a resource file for use as a C string: `Ok` when no
/// interior nul byte occurs, and exactly then; `FileContainsNil` otherwise.
pub fn check_cstring_bytes(buffer: &Vec<u8>) -> (r: Result<(), Error>)
    ensures
        r is Ok <==> !buffer@.contains(0u8),
{
    let n = buffer.len();
    for i in 0..n
        invariant
            n == buffer@.len(),
            forall|j: int| 0 <= j < i ==> buffer@[j] != 0u8,
    {
        if buffer[i] == 0 {
            return Err(Error::FileContainsNil);
        }
    }
    Ok(())
}

} // verus!
