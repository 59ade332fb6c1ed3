//! A persistent key-value map kept as one directory of files.
//!
//! Each entry lives in one file whose name is the key's string and whose
//! content is the value's binary encoding; advisory locks guard the reads
//! and the writes. This crate holds everything the store decides: how a
//! key becomes a path, which request each operation makes of the file
//! system, what each outcome means, and what the operations make of the
//! directory's contents. The caller that owns the process's file handles
//! carries the requests out and reports back; `Error` names the one
//! reason any operation can fail.

use vstd::prelude::*;

pub mod codec;
pub mod paths;
pub mod semantics;
pub mod store;

verus! {

/// The reason a store operation failed. Every operation returns either
/// success or exactly one of these; none panics.
#[derive(Debug, Clone, Copy, PartialEq, Eq, Structural)]
pub enum Error {
    /// The store's directory cannot be created or listed.
    CannotOpenDirectory,
    /// An entry's file cannot be opened: it already exists where it must
    /// not (insert), or is absent or denied where it must exist.
    CannotOpenFile,
    /// An entry's content cannot be read or is no value's encoding.
    CannotReadFromFile,
    /// An insert's value cannot be serialized or written.
    CannotInsert,
    /// An alter's or overwrite's value cannot be serialized or written.
    CannotAlterFile,
    /// An entry's file cannot be removed.
    CannotDeleteFile,
    /// An advisory lock on an entry's file cannot be taken.
    CannotGetLock,
}

} // verus!
