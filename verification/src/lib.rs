//! Which kernel produced a piece of geometry.
//!
//! The stamp itself is fixed when the crate is built: the build hashes what
//! makes up the kernel and hands the result in as a string. This library
//! takes that string as it is and hands it out unchanged.

use vstd::prelude::*;

verus! {

/// **A stamp for consumers that cache geometry on disk across runs.**
///
/// A cached body or mesh is only valid for the kernel that made it. Mix the
/// stamp into the cache key and a changed kernel invalidates the cache by
/// itself, instead of relying on someone remembering to clear it.
///
/// `build` is the stamp that the build emitted for this kernel. The result is
/// that string, unchanged: not trimmed, parsed, re-hashed or combined with
/// anything read at call time. So two calls in one build (and two runs of the
/// same binary) agree, and two builds whose emitted stamps differ get
/// different stamps. The stamp carries no meaning beyond equality.
pub fn kernel_stamp(build: &'static str) -> (stamp: &'static str)
    ensures
        stamp@ == build@,
{
    build
}

} // verus!
