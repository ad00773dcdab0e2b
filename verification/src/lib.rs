//! Feature-lifetime registry and version-compatibility queries for a
//! metadata-service client and server.
//!
//! The library records, for every protocol feature, the half-open version
//! interval during which the feature is active on each side (server and
//! client), and derives from that history the oldest peer build that each
//! side can interoperate with.

use vstd::prelude::*;

pub mod feat;
pub mod feature_span;
pub mod registry;
pub mod version;

pub use crate::feat::Feature;
pub use crate::feature_span::FeatureSpan;
pub use crate::registry::Spec;
pub use crate::registry::add;
pub use crate::registry::initial_spans;
pub use crate::registry::remove;
pub use crate::version::Version;
pub use crate::version::parse_version;

verus! {

/// The build version that this registry describes.
pub open spec fn build_version() -> Version {
    Version { major: 260205, minor: 0, patch: 0 }
}

/// Returns the version string of this build.
pub fn version_str() -> (r: &'static str)
    ensures
        r@ == "260205.0.0"@,
{
    "260205.0.0"
}

/// Returns the version of this build.
pub fn version() -> (r: Version)
    ensures
        r == build_version(),
{
    Version::new(260205, 0, 0)
}

/// Returns the full version and feature compatibility spec for this build:
/// the loaded registry, with exactly the lifetimes its history yields.
pub fn spec() -> (r: Spec)
    ensures
        r.version_spec() == build_version(),
        r.server_spans() == crate::registry::server_lifetimes(),
        r.client_spans() == crate::registry::client_lifetimes(),
        crate::registry::spans_aligned(r.server_spans()),
        crate::registry::spans_aligned(r.client_spans()),
        crate::registry::spans_history_wf(r.server_spans()),
        crate::registry::spans_history_wf(r.client_spans()),
{
    Spec::load()
}

} // verus!
