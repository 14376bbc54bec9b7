//! Kernel compatibility: what a collector decides from the running kernel's
//! version and from whether a feature it depends on is there.

use vstd::prelude::*;

verus! {

/// The version of a kernel.
#[derive(Clone, Copy, Debug, PartialEq, Eq, Structural)]
pub struct KernelVersion {
    pub major: u32,
    pub minor: u32,
    pub patch: u32,
}

/// The requirement `>= major.minor` on a kernel's version.
#[derive(Clone, Copy, Debug, PartialEq, Eq, Structural)]
pub struct KernelVersionReq {
    pub major: u32,
    pub minor: u32,
}

/// Whether version `v` is `major.minor` or later.
pub open spec fn at_least(v: KernelVersion, major: u32, minor: u32) -> bool {
    v.major > major || (v.major == major && v.minor >= minor)
}

impl KernelVersionReq {
    /// Whether a version meets the requirement.
    pub fn matches(&self, v: KernelVersion) -> (b: bool)
        ensures
            b == at_least(v, self.major, self.minor),
    {
        v.major > self.major || (v.major == self.major && v.minor >= self.minor)
    }
}

/// How a collector may run.
#[derive(Clone, Copy, Debug, PartialEq, Eq, Structural)]
pub enum Compat {
    /// Everything the collector depends on is there.
    Full,
    /// A feature is missing on a kernel that predates it: the collector runs
    /// without it, and the caller is to warn.
    Degraded,
}

/// The collector cannot run: a feature is missing on a kernel that must have
/// it.
#[derive(Clone, Copy, Debug, PartialEq, Eq, Structural)]
pub struct FeatureMissing {
    /// The requirement the kernel meets, and by which it should have the
    /// feature.
    pub since: KernelVersionReq,
}

/// The policy for one feature, as a value: present, the collector runs in
/// full; absent from a kernel at or after the version that introduced it, a
/// hard failure; absent from an older kernel, a degraded run.
pub open spec fn gate_of(present: bool, version: KernelVersion, since: KernelVersionReq) -> Result<
    Compat,
    FeatureMissing,
> {
    if present {
        Ok(Compat::Full)
    } else if at_least(version, since.major, since.minor) {
        Err(FeatureMissing { since })
    } else {
        Ok(Compat::Degraded)
    }
}

/// Applies the policy for one feature.
pub fn gate(present: bool, version: KernelVersion, since: KernelVersionReq) -> (r: Result<
    Compat,
    FeatureMissing,
>)
    ensures
        r == gate_of(present, version, since),
{
    if present {
        Ok(Compat::Full)
    } else if since.matches(version) {
        Err(FeatureMissing { since })
    } else {
        Ok(Compat::Degraded)
    }
}

/// An absent feature never goes unnoticed: the collector either fails or
/// runs degraded, and which of the two depends on the version alone. A later
/// kernel never turns a failure into a degraded run.
pub proof fn lemma_gate_monotone(
    older: KernelVersion,
    newer: KernelVersion,
    since: KernelVersionReq,
)
    requires
        older.major < newer.major || (older.major == newer.major && older.minor <= newer.minor),
    ensures
        gate_of(false, older, since) != Ok::<Compat, FeatureMissing>(Compat::Full),
        gate_of(false, older, since) is Err ==> gate_of(false, newer, since) is Err,
        gate_of(false, newer, since) is Ok ==> gate_of(false, older, since) == Ok::<
            Compat,
            FeatureMissing,
        >(Compat::Degraded),
{
}

} // verus!
