//! The fixed hash of a world snapshot, kept as text so that it reads the
//! same on every platform.
use vstd::prelude::*;

verus! {

/// A snapshot hash, as text.
#[derive(Debug, Clone, PartialEq, Eq)]
pub struct SnapshotHash(pub String);

} // verus!
