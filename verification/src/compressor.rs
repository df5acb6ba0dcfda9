use vstd::prelude::*;
use vstd::string::StrSliceExecFns;

verus! {

/// A compression run rooted at one directory: every regular file reachable
/// under `directory` is compressed into one artifact per codec of the set.
pub struct Compressor {
    pub directory: String,
}

impl Compressor {
    /// A compressor for the given root directory. The root is validated
    /// before traversal begins, not here.
    pub fn new(directory: String) -> (c: Compressor)
        ensures
            c.directory == directory,
    {
        Compressor { directory }
    }
}

/// Whether a root path is acceptable: only an absolute path, one starting at
/// the filesystem root, may begin a run. A missing or relative root is a
/// configuration error, reported once before any processing.
pub open spec fn is_absolute_spec(path: Seq<char>) -> bool {
    path.len() > 0 && path[0] == '/'
}

/// Decide whether a root path is absolute.
pub fn is_absolute_path(path: &str) -> (r: bool)
    ensures
        r == is_absolute_spec(path@),
{
    if path.unicode_len() == 0 {
        false
    } else {
        path.get_char(0) == '/'
    }
}

} // verus!
