//! A three-component version number with a total lexicographic order,
//! minimum/maximum sentinels, a compact integer encoding, and conversion
//! to and from the external semantic-version representation.

use vstd::prelude::*;

verus! {

/// A three-component version number `(major, minor, patch)`,
/// ordered lexicographically.
#[derive(Debug, Clone, Copy, PartialEq, Eq, Structural, Hash)]
pub struct Version {
    pub major: u64,
    pub minor: u64,
    pub patch: u64,
}

/// Strict lexicographic order on versions.
pub open spec fn version_lt(a: Version, b: Version) -> bool {
    ||| a.major < b.major
    ||| (a.major == b.major && a.minor < b.minor)
    ||| (a.major == b.major && a.minor == b.minor && a.patch < b.patch)
}

/// Non-strict lexicographic order on versions.
pub open spec fn version_le(a: Version, b: Version) -> bool {
    version_lt(a, b) || a == b
}

impl Version {
    /// The minimum version, `(0, 0, 0)`.
    pub open spec fn min_spec() -> Version {
        Version { major: 0, minor: 0, patch: 0 }
    }

    /// The maximum version, all components at their largest value.
    pub open spec fn max_spec() -> Version {
        Version { major: u64::MAX, minor: u64::MAX, patch: u64::MAX }
    }

    /// The compact integer encoding: the minor and patch components each
    /// occupy three decimal digits below the major component.
    pub open spec fn digit_spec(self) -> int {
        self.major * 1_000_000 + self.minor * 1_000 + self.patch
    }

    /// Decoding of the compact integer encoding.
    pub open spec fn from_digit_spec(u: u64) -> Version {
        Version {
            major: (u / 1_000_000) as u64,
            minor: ((u / 1_000) % 1_000) as u64,
            patch: (u % 1_000) as u64,
        }
    }

    /// Creates a new version with the given components.
    pub fn new(major: u64, minor: u64, patch: u64) -> (r: Self)
        ensures
            r == (Version { major, minor, patch }),
    {
        Version { major, minor, patch }
    }

    /// Returns the minimum possible version (0.0.0).
    ///
    /// Used as the initial value when calculating minimum compatible versions.
    pub fn min() -> (r: Self)
        ensures
            r == Version::min_spec(),
    {
        Version { major: 0, minor: 0, patch: 0 }
    }

    /// Returns the maximum possible version.
    ///
    /// Used as the default `until` value for features that have not been
    /// removed (i.e., they are still supported in current versions).
    pub fn max() -> (r: Self)
        ensures
            r == Version::max_spec(),
    {
        Version { major: u64::MAX, minor: u64::MAX, patch: u64::MAX }
    }

    /// Packs the version into one unsigned integer.
    ///
    /// The encoding assumes `minor < 1000` and `patch < 1000`; outside those
    /// bounds a larger component silently overflows into the one above it.
    pub fn to_digit(&self) -> (r: u64)
        requires
            self.digit_spec() <= u64::MAX,
        ensures
            r == self.digit_spec(),
    {
        self.major * 1_000_000 + self.minor * 1_000 + self.patch
    }

    /// Unpacks a version from its compact integer encoding.
    pub fn from_digit(u: u64) -> (r: Self)
        ensures
            r == Version::from_digit_spec(u),
    {
        Version { major: u / 1_000_000, minor: u / 1_000 % 1_000, patch: u % 1_000 }
    }

    /// Returns the major version component.
    pub fn major(&self) -> (r: u64)
        ensures
            r == self.major,
    {
        self.major
    }

    /// Returns the minor version component.
    pub fn minor(&self) -> (r: u64)
        ensures
            r == self.minor,
    {
        self.minor
    }

    /// Returns the patch version component.
    pub fn patch(&self) -> (r: u64)
        ensures
            r == self.patch,
    {
        self.patch
    }

    /// Returns the version as a tuple `(major, minor, patch)`.
    pub fn as_tuple(&self) -> (r: (u64, u64, u64))
        ensures
            r == (self.major, self.minor, self.patch),
    {
        (self.major, self.minor, self.patch)
    }
}

/// The triple `(major, minor, patch)` that `semver::Version::parse` extracts
/// from a string, or nothing where the string is not a valid semantic version.
/// The parse is a pure function of the string alone.
pub uninterp spec fn semver_triple_of(s: Seq<char>) -> Option<(u64, u64, u64)>;

/// Relies on semver::Version::parse: parsing is deterministic, never panics,
/// and yields the numeric triple of a valid semantic-version string.
#[verifier::external_body]
fn parse_semver_triple(s: &str) -> (r: Option<(u64, u64, u64)>)
    ensures
        r == semver_triple_of(s@),
{
    match semver::Version::parse(s) {
        Ok(v) => Some((v.major, v.minor, v.patch)),
        Err(_) => None,
    }
}

/// Parses a semantic-version string into a [`Version`].
///
/// Returns `None` exactly where the string is not a valid semantic version;
/// pre-release and build metadata are not modeled, only the numeric triple
/// is kept.
pub fn parse_version(s: &str) -> (r: Option<Version>)
    ensures
        r is Some <==> semver_triple_of(s@) is Some,
        r matches Some(v) ==> semver_triple_of(s@) == Some((v.major, v.minor, v.patch)),
{
    match parse_semver_triple(s) {
        Some((major, minor, patch)) => Some(Version { major, minor, patch }),
        None => None,
    }
}

impl PartialOrd for Version {
    fn partial_cmp(&self, other: &Version) -> (r: Option<core::cmp::Ordering>) {
        if self.major != other.major {
            if self.major < other.major {
                Some(core::cmp::Ordering::Less)
            } else {
                Some(core::cmp::Ordering::Greater)
            }
        } else if self.minor != other.minor {
            if self.minor < other.minor {
                Some(core::cmp::Ordering::Less)
            } else {
                Some(core::cmp::Ordering::Greater)
            }
        } else if self.patch != other.patch {
            if self.patch < other.patch {
                Some(core::cmp::Ordering::Less)
            } else {
                Some(core::cmp::Ordering::Greater)
            }
        } else {
            Some(core::cmp::Ordering::Equal)
        }
    }
}

impl vstd::std_specs::cmp::PartialOrdSpecImpl for Version {
    open spec fn obeys_partial_cmp_spec() -> bool {
        true
    }

    open spec fn partial_cmp_spec(&self, other: &Version) -> Option<core::cmp::Ordering> {
        if version_lt(*self, *other) {
            Some(core::cmp::Ordering::Less)
        } else if *self == *other {
            Some(core::cmp::Ordering::Equal)
        } else {
            Some(core::cmp::Ordering::Greater)
        }
    }
}

/// The lexicographic order on versions is total: any two versions compare.
pub proof fn lemma_version_order_total(a: Version, b: Version)
    ensures
        version_lt(a, b) || version_lt(b, a) || a == b,
        !(version_lt(a, b) && version_lt(b, a)),
        version_lt(a, b) ==> a != b,
{
}

/// The lexicographic order on versions is transitive.
pub proof fn lemma_version_order_transitive(a: Version, b: Version, c: Version)
    requires
        version_lt(a, b),
        version_lt(b, c),
    ensures
        version_lt(a, c),
{
}

/// Every version lies between the two sentinels: `MIN <= v <= MAX`,
/// strictly so for any version other than the sentinel itself.
pub proof fn lemma_version_sentinel_bounds(v: Version)
    ensures
        version_le(Version::min_spec(), v),
        version_le(v, Version::max_spec()),
        v != Version::min_spec() ==> version_lt(Version::min_spec(), v),
        v != Version::max_spec() ==> version_lt(v, Version::max_spec()),
{
}

/// Decoding the encoded form of a triple whose minor and patch components
/// are below 1000 recovers the original triple exactly.
pub proof fn lemma_digit_roundtrip(v: Version)
    requires
        v.minor < 1000,
        v.patch < 1000,
        v.digit_spec() <= u64::MAX,
    ensures
        Version::from_digit_spec((v.digit_spec()) as u64) == v,
{
    let u = v.digit_spec() as u64;
    assert(u == v.major * 1_000_000 + v.minor * 1_000 + v.patch);
    assert(u / 1_000_000 == v.major && u / 1_000 % 1_000 == v.minor && u % 1_000 == v.patch)
        by (nonlinear_arith)
        requires
            u == v.major * 1_000_000 + v.minor * 1_000 + v.patch,
            v.minor < 1000,
            v.patch < 1000,
    ;
}

} // verus!
