//! File names and open modes.

use vstd::prelude::*;
use vstd::string::StringExecFns;

verus! {

/// How a file is to be opened.
#[derive(Clone, Copy, Debug, PartialEq, Eq)]
pub enum Mode {
    /// Open an existing file for reading.
    Open,
    /// Create the file for writing, emptying it if it exists.
    Create,
}

/// The name of the companion of `file` with the given suffix: the file's
/// whole name, a dot, and the suffix.
pub open spec fn companion_name(file: Seq<char>, suffix: Seq<char>) -> Seq<char> {
    file + seq!['.'] + suffix
}

/// Appends a dot and `extension` to `path`. An extension that `path` already
/// has is kept, not replaced: `a.tar.gz` with `otp.0` gives `a.tar.gz.otp.0`.
pub fn extend_extension(path: &str, extension: &str) -> (res: String)
    ensures
        res@ == companion_name(path@, extension@),
{
    let mut name = path.to_owned();
    name.append(".");
    name.append(extension);
    proof {
        reveal_strlit(".");
        assert("."@ =~= seq!['.']);
    }
    name
}

} // verus!
