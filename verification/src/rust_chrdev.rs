//! A character device whose sessions support nothing.
//!
//! It shows what the framework does for a session type that leaves every
//! operation out: a session can be opened, and whatever is asked of it is
//! refused without any effect.

use vstd::prelude::*;

use crate::error::Error;
use crate::file_operations::{FileOpener, FileOperations, ToUse};

verus! {

/// The state of one open of the device: there is none.
#[derive(Debug, PartialEq, Eq, Structural)]
pub struct RustFile {}

impl Default for RustFile {
    fn default() -> (file: RustFile)
        ensures
            file == (RustFile {  }),
    {
        RustFile {  }
    }
}

impl FileOperations for RustFile {
    type Shared = ();

    open spec fn supported() -> ToUse {
        ToUse { read: false, write: false, ioctl: false }
    }

    fn to_use() -> (to_use: ToUse) {
        ToUse { read: false, write: false, ioctl: false }
    }
}

impl FileOpener<()> for RustFile {
    /// Opens a session. The context holds nothing, and nothing is taken
    /// from it.
    fn open(context: &()) -> (r: Result<Box<RustFile>, Error>)
        ensures
            r matches Ok(file) && *file == (RustFile {  }),
    {
        Ok(Box::new(RustFile::default()))
    }
}

} // verus!
