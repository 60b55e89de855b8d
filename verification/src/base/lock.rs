//! Atomic writes: a file is written next to its destination under the
//! extension `tmp`, then renamed over it, while the destination is locked.
//! Locking and writing are the caller's.
use vstd::prelude::*;

use crate::paths::{with_extension, with_extension_of};

verus! {

/// The temporary file an atomic write of `path` goes through.
pub fn atomic_temp_path(path: &str) -> (t: String)
    ensures
        t@ == with_extension_of(path@, "tmp"@),
{
    proof {
        reveal_strlit("tmp");
    }
    with_extension(path, "tmp")
}

} // verus!
