//! The lifetime of one feature for one role: the half-open version
//! interval `[since, until)` during which the feature is active.

use vstd::prelude::*;

use crate::feat::Feature;
use crate::version::Version;
use crate::version::version_le;
use crate::version::version_lt;

verus! {

/// The lifetime `[since, until)` of a feature.
#[derive(Debug, Clone, Copy, PartialEq, Eq, Structural)]
pub struct FeatureSpan {
    /// The feature being described.
    pub feature: Feature,
    /// The version when this feature was added (inclusive).
    pub since: Version,
    /// The version when this feature was removed (exclusive).
    ///
    /// If the feature is still supported, this is `Version::max()`.
    pub until: Version,
}

impl FeatureSpan {
    /// A feature is active at version `v` exactly when `since <= v < until`.
    pub open spec fn active_at(self, v: Version) -> bool {
        version_le(self.since, v) && version_lt(v, self.until)
    }

    /// Creates a lifetime starting at `since` with no end (`until = Version::max()`).
    pub fn new(feature: Feature, since: Version) -> (r: Self)
        ensures
            r == (FeatureSpan { feature, since, until: Version::max_spec() }),
    {
        FeatureSpan { feature, since, until: Version::max() }
    }

    /// Returns this lifetime with its end set to `until`.
    pub fn until(self, until: Version) -> (r: Self)
        ensures
            r == (FeatureSpan { feature: self.feature, since: self.since, until }),
    {
        FeatureSpan { feature: self.feature, since: self.since, until }
    }

    /// Returns this lifetime with its end set to the given components.
    pub fn until3(self, until_major: u64, until_minor: u64, until_patch: u64) -> (r: Self)
        ensures
            r == (FeatureSpan {
                feature: self.feature,
                since: self.since,
                until: Version { major: until_major, minor: until_minor, patch: until_patch },
            }),
    {
        self.until(Version::new(until_major, until_minor, until_patch))
    }

    /// Returns true if the feature is active at the given version.
    ///
    /// A feature is active when: `since <= version < until`.
    pub fn is_active_at(&self, version: Version) -> (r: bool)
        ensures
            r == self.active_at(version),
    {
        self.since <= version && version < self.until
    }
}

/// The boundaries of a lifetime: a feature is active at its `since` version
/// exactly when the interval is not empty, and never active at its `until`
/// version or later.
pub proof fn lemma_active_at_boundaries(s: FeatureSpan, v: Version)
    ensures
        s.active_at(s.since) == version_lt(s.since, s.until),
        !s.active_at(s.until),
        version_le(s.until, v) ==> !s.active_at(v),
        version_lt(v, s.since) ==> !s.active_at(v),
{
}

} // verus!
