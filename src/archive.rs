//! What extracting each entry of a profile archive does.

use vstd::prelude::*;

verus! {

/// The action for one archive entry.
#[derive(Debug, Clone, Copy, PartialEq, Eq, Structural)]
pub enum EntryAction {
    /// The entry is a directory: create it, with its parents.
    CreateDir,
    /// The entry is a file: create its parent directories and the file, and
    /// copy its contents only where it has any.
    WriteFile { copy_contents: bool },
}

/// An entry whose name ends with `/` is a directory.
pub open spec fn entry_spec(name: Seq<char>, size: u64) -> EntryAction {
    if name.len() > 0 && name.last() == '/' {
        EntryAction::CreateDir
    } else {
        EntryAction::WriteFile { copy_contents: size > 0 }
    }
}

/// Decides what to do with the archive entry `name` of `size` bytes.
pub fn entry_action(name: &str, size: u64) -> (r: EntryAction)
    ensures
        r == entry_spec(name@, size),
{
    let n = name.unicode_len();
    if n > 0 && name.get_char(n - 1) == '/' {
        EntryAction::CreateDir
    } else {
        EntryAction::WriteFile { copy_contents: size > 0 }
    }
}

} // verus!
