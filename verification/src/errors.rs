//! The error taxonomy of the collector service.
//!
//! Fatal errors abort the whole service process; only a failed inbound
//! call after the service reached steady state is recovered locally (the
//! serving loop logs it and continues, see [`crate::lifecycle`]).

use vstd::prelude::*;

verus! {

/// A raw kernel table whose byte length is not a multiple of the 8-byte
/// record size.  Fatal for the refresh that decoded it.
#[derive(Clone, Copy, Debug, PartialEq, Eq, Structural)]
pub struct FormatError {
    /// The offending byte length.
    pub byte_len: usize,
}

/// Which classification invariant a frame violated.
#[derive(Clone, Copy, Debug, PartialEq, Eq, Structural)]
pub enum FaultKind {
    /// A frame on the active LRU list also carries the UNEVICTABLE flag.
    ActiveUnevictable,
    /// A KSM-shared frame with a reference count below 2.
    SharedLowRefCount,
    /// An uncategorized flagged frame (classified as previously used free
    /// memory) with a nonzero reference count.
    FreeFrameReferenced,
    /// The primary category totals do not add up to the total frame count.
    TotalMismatch,
}

/// A classification invariant was violated: the flag model encountered a
/// combination the classifier does not account for.  Treated as fatal,
/// because a misclassification is worse than a crash for a diagnostic
/// tool whose output is trusted verbatim.
#[derive(Clone, Copy, Debug, PartialEq, Eq, Structural)]
pub struct ConsistencyFault {
    /// The physical frame number at which the violation was found (the
    /// table length for a totals mismatch).
    pub pfn: usize,
    /// The violated invariant.
    pub kind: FaultKind,
}

/// A protected kernel interface could not be opened or read.  Fatal at
/// startup and fatal mid-refresh: data integrity cannot be guaranteed
/// from a torn read.
#[derive(Clone, Copy, Debug, PartialEq, Eq, Structural)]
pub enum ResourceError {
    /// The per-frame reference-count stream could not be opened.
    OpenCounts,
    /// The per-frame flag stream could not be opened.
    OpenFlags,
    /// The per-frame reference-count stream could not be read.
    ReadCounts,
    /// The per-frame flag stream could not be read.
    ReadFlags,
}

/// The privileged lifecycle could not start or downgrade.  Fatal at
/// startup.
#[derive(Clone, Copy, Debug, PartialEq, Eq, Structural)]
pub enum PrivilegeError {
    /// The process did not start with superuser identity.
    NotSuperuser { uid: u32 },
    /// The fixed unprivileged user is absent from the system.
    UserMissing,
    /// The fixed unprivileged group is absent from the system.
    GroupMissing,
    /// Setting the unprivileged group identity failed.
    SetGroupFailed,
    /// Setting the unprivileged user identity failed.
    SetUserFailed,
    /// Clearing an extended capability set failed.
    ClearCapsFailed,
}

/// A fault that terminates one refresh.
#[derive(Clone, Copy, Debug, PartialEq, Eq, Structural)]
pub enum RefreshError {
    /// A decoded buffer was malformed.
    Format(FormatError),
    /// A classification invariant was violated.
    Consistency(ConsistencyFault),
}

/// A fault that terminates the whole service process.  A failed inbound
/// call (the CallError case of the taxonomy) never appears here: it is
/// logged and the serving loop continues.
#[derive(Clone, Copy, Debug, PartialEq, Eq, Structural)]
pub enum FatalFault {
    Resource(ResourceError),
    Format(FormatError),
    Consistency(ConsistencyFault),
    Privilege(PrivilegeError),
}

} // verus!
