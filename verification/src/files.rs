//! What the library asks its caller to write to disk: plain path/content
//! pairs.  The library never touches the filesystem itself.

use vstd::prelude::*;

verus! {

/// One binary file to write: a path relative to the blog root and the bytes
/// to store there.
pub struct OutFile {
    /// Where the file belongs, relative to the blog root.
    pub rel_path: String,
    /// The bytes to store.
    pub data: Vec<u8>,
}

/// One text file to write: a path relative to the blog root and the text to
/// store there.
pub struct TextFile {
    /// Where the file belongs, relative to the blog root.
    pub rel_path: String,
    /// The text to store.
    pub data: String,
}

} // verus!
