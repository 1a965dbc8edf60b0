//! File system inspectors: the application's say on each read and write the
//! engine performs.
use vstd::prelude::*;

verus! {

/// Told of each read and write, and answers how many bytes may go through.
pub trait FileSystemInspector {
    /// Asked before a read of `len` bytes.
    fn read(&self, len: usize) -> Result<usize, String>;

    /// Asked before a write of `len` bytes.
    fn write(&self, len: usize) -> Result<usize, String>;
}

/// What the engine is handed for an inspector's answer: the number of bytes
/// allowed, or none of them and the error message.
pub fn inspector_reply(r: Result<usize, String>) -> (out: (usize, Option<String>))
    ensures
        match r {
            Ok(n) => out.0 == n && out.1 is None,
            Err(m) => out.0 == 0 && (out.1 matches Some(e) && e@ == m@),
        },
{
    match r {
        Ok(n) => (n, None),
        Err(e) => (0, Some(e)),
    }
}

/// Asks `inspector` about a read of `len` bytes, and gives what the engine
/// is handed.
pub fn inspect_read<F: FileSystemInspector>(inspector: &F, len: usize) -> (usize, Option<String>) {
    inspector_reply(inspector.read(len))
}

/// Asks `inspector` about a write of `len` bytes, and gives what the engine
/// is handed.
pub fn inspect_write<F: FileSystemInspector>(inspector: &F, len: usize) -> (usize, Option<String>) {
    inspector_reply(inspector.write(len))
}

} // verus!
