//! The compatibility registry: per-role feature-lifetime tables, built once
//! by replaying the chronological history of feature additions and removals,
//! and the two compatibility queries derived from them.
//!
//! Each role's table holds one [`FeatureSpan`] per catalog feature, in the
//! catalog order; building the registry validates that the tables cover the
//! whole catalog.

use vstd::prelude::*;

use crate::feat::Feature;
use crate::feat::catalog;
use crate::feat::lemma_catalog_index;
use crate::feature_span::FeatureSpan;
use crate::version::Version;
use crate::version::version_le;
use crate::version::version_lt;

verus! {

/// A role's table covers the catalog: one span per feature, in catalog order.
pub open spec fn spans_aligned(spans: Seq<FeatureSpan>) -> bool {
    &&& spans.len() == catalog().len()
    &&& forall|i: int| 0 <= i < spans.len() ==> (#[trigger] spans[i]).feature == catalog()[i]
}

/// What a well-formed history leaves behind in one span: a feature was only
/// ever removed after it had been added, so a finite `until` comes with a
/// real `since` strictly below it.
pub open spec fn span_history_wf(s: FeatureSpan) -> bool {
    s.until == Version::max_spec() || (s.since != Version::min_spec() && version_lt(
        s.since,
        s.until,
    ))
}

/// Every span of a table reflects a well-formed history.
pub open spec fn spans_history_wf(spans: Seq<FeatureSpan>) -> bool {
    forall|i: int| 0 <= i < spans.len() ==> span_history_wf(#[trigger] spans[i])
}

/// An untouched span: the feature has no recorded history yet.
pub open spec fn span_untouched(s: FeatureSpan) -> bool {
    s.since == Version::min_spec() && s.until == Version::max_spec()
}

/// Returns a fresh role table: one record per catalog feature, each with
/// no history yet (`since = MIN`, `until = MAX`).
pub fn initial_spans() -> (r: Vec<FeatureSpan>)
    ensures
        spans_aligned(r@),
        spans_history_wf(r@),
        forall|i: int| 0 <= i < r@.len() ==> span_untouched(#[trigger] r@[i]),
{
    let feats = Feature::all();
    let mut spans: Vec<FeatureSpan> = Vec::new();
    let n = feats.len();
    for k in 0..n
        invariant
            n == catalog().len(),
            feats@ == catalog(),
            spans@.len() == k,
            forall|i: int|
                0 <= i < k ==> #[trigger] spans@[i] == (FeatureSpan {
                    feature: catalog()[i],
                    since: Version::min_spec(),
                    until: Version::max_spec(),
                }),
    {
        spans.push(FeatureSpan::new(feats[k], Version::min()));
    }
    spans
}

/// Record that a feature was added at `version`.
///
/// This must be the first `add` for this role and feature: the record must
/// still be untouched. Reapplying or duplicating an add is a
/// construction-time error.
pub fn add(spans: &mut Vec<FeatureSpan>, feature: Feature, version: Version)
    requires
        spans_aligned(old(spans)@),
        spans_history_wf(old(spans)@),
        old(spans)@[feature.index_spec()].since == Version::min_spec(),
        old(spans)@[feature.index_spec()].until == Version::max_spec(),
    ensures
        final(spans)@ == old(spans)@.update(
            feature.index_spec(),
            FeatureSpan { feature, since: version, until: Version::max_spec() },
        ),
        spans_aligned(final(spans)@),
        spans_history_wf(final(spans)@),
{
    proof {
        lemma_catalog_index(feature);
    }
    let i = feature.index();
    spans[i] = FeatureSpan { feature, since: version, until: Version::max() };
}

/// Record that a feature was removed at `version`.
///
/// The feature must have been added first, at a version strictly below
/// `version`, and not removed before. Anything else is a construction-time
/// error.
pub fn remove(spans: &mut Vec<FeatureSpan>, feature: Feature, version: Version)
    requires
        spans_aligned(old(spans)@),
        spans_history_wf(old(spans)@),
        old(spans)@[feature.index_spec()].since != Version::min_spec(),
        old(spans)@[feature.index_spec()].until == Version::max_spec(),
        version_lt(old(spans)@[feature.index_spec()].since, version),
    ensures
        final(spans)@ == old(spans)@.update(
            feature.index_spec(),
            FeatureSpan {
                feature,
                since: old(spans)@[feature.index_spec()].since,
                until: version,
            },
        ),
        spans_aligned(final(spans)@),
        spans_history_wf(final(spans)@),
{
    proof {
        lemma_catalog_index(feature);
    }
    let i = feature.index();
    let since = spans[i].since;
    spans[i] = FeatureSpan { feature, since, until: version };
}

/// The server-side lifetime of every catalog feature, in catalog order:
/// the table that the chronological history in [`Spec::new`] amounts to.
/// Building the registry proves that the two stay in step.
pub open spec fn server_lifetimes() -> Seq<FeatureSpan> {
    seq![
        FeatureSpan {
            feature: Feature::KvApi,
            since: Version { major: 1, minor: 2, patch: 163 },
            until: Version::max_spec(),
        },
        FeatureSpan {
            feature: Feature::KvApiGetKv,
            since: Version { major: 1, minor: 2, patch: 163 },
            until: Version { major: 1, minor: 2, patch: 663 },
        },
        FeatureSpan {
            feature: Feature::KvApiMGetKv,
            since: Version { major: 1, minor: 2, patch: 163 },
            until: Version { major: 1, minor: 2, patch: 663 },
        },
        FeatureSpan {
            feature: Feature::KvApiListKv,
            since: Version { major: 1, minor: 2, patch: 163 },
            until: Version { major: 1, minor: 2, patch: 663 },
        },
        FeatureSpan {
            feature: Feature::KvReadV1,
            since: Version { major: 1, minor: 2, patch: 163 },
            until: Version::max_spec(),
        },
        FeatureSpan {
            feature: Feature::Transaction,
            since: Version { major: 1, minor: 2, patch: 258 },
            until: Version::max_spec(),
        },
        FeatureSpan {
            feature: Feature::TransactionReplyError,
            since: Version { major: 1, minor: 2, patch: 258 },
            until: Version { major: 1, minor: 2, patch: 755 },
        },
        FeatureSpan {
            feature: Feature::TransactionPutWithTtl,
            since: Version { major: 1, minor: 2, patch: 258 },
            until: Version::max_spec(),
        },
        FeatureSpan {
            feature: Feature::TransactionConditionKeysPrefix,
            since: Version { major: 1, minor: 2, patch: 674 },
            until: Version::max_spec(),
        },
        FeatureSpan {
            feature: Feature::TransactionOperations,
            since: Version { major: 1, minor: 2, patch: 676 },
            until: Version::max_spec(),
        },
        FeatureSpan {
            feature: Feature::OperationAsIs,
            since: Version { major: 1, minor: 2, patch: 163 },
            until: Version::max_spec(),
        },
        FeatureSpan {
            feature: Feature::Export,
            since: Version { major: 1, minor: 2, patch: 259 },
            until: Version::max_spec(),
        },
        FeatureSpan {
            feature: Feature::ExportV1,
            since: Version { major: 1, minor: 2, patch: 315 },
            until: Version::max_spec(),
        },
        FeatureSpan {
            feature: Feature::Watch,
            since: Version { major: 1, minor: 2, patch: 259 },
            until: Version::max_spec(),
        },
        FeatureSpan {
            feature: Feature::WatchInitialFlush,
            since: Version { major: 1, minor: 2, patch: 677 },
            until: Version::max_spec(),
        },
        FeatureSpan {
            feature: Feature::WatchResponseIsInit,
            since: Version { major: 1, minor: 2, patch: 736 },
            until: Version::max_spec(),
        },
        FeatureSpan {
            feature: Feature::MemberList,
            since: Version { major: 1, minor: 2, patch: 259 },
            until: Version::max_spec(),
        },
        FeatureSpan {
            feature: Feature::GetClusterStatus,
            since: Version { major: 1, minor: 2, patch: 259 },
            until: Version::max_spec(),
        },
        FeatureSpan {
            feature: Feature::GetClientInfo,
            since: Version { major: 1, minor: 2, patch: 259 },
            until: Version::max_spec(),
        },
        FeatureSpan {
            feature: Feature::PutResponseCurrent,
            since: Version { major: 1, minor: 2, patch: 756 },
            until: Version::max_spec(),
        },
        FeatureSpan {
            feature: Feature::FetchAddU64,
            since: Version { major: 1, minor: 2, patch: 764 },
            until: Version::max_spec(),
        },
        FeatureSpan {
            feature: Feature::ExpireInMillis,
            since: Version { major: 1, minor: 2, patch: 770 },
            until: Version::max_spec(),
        },
        FeatureSpan {
            feature: Feature::PutSequential,
            since: Version { major: 1, minor: 2, patch: 770 },
            until: Version::max_spec(),
        },
        FeatureSpan {
            feature: Feature::ProposedAtMs,
            since: Version { major: 1, minor: 2, patch: 823 },
            until: Version::max_spec(),
        },
        FeatureSpan {
            feature: Feature::FetchIncreaseU64,
            since: Version { major: 1, minor: 2, patch: 828 },
            until: Version::max_spec(),
        },
        FeatureSpan {
            feature: Feature::KvList,
            since: Version { major: 1, minor: 2, patch: 869 },
            until: Version::max_spec(),
        },
        FeatureSpan {
            feature: Feature::KvGetMany,
            since: Version { major: 1, minor: 2, patch: 869 },
            until: Version::max_spec(),
        },
    ]
}

/// The client-side lifetime of every catalog feature, in catalog order:
/// the table that the chronological history in [`Spec::new`] amounts to.
/// A `since` of `MAX` reserves a feature no current client build uses.
pub open spec fn client_lifetimes() -> Seq<FeatureSpan> {
    seq![
        FeatureSpan {
            feature: Feature::KvApi,
            since: Version { major: 1, minor: 2, patch: 163 },
            until: Version { major: 1, minor: 2, patch: 823 },
        },
        FeatureSpan {
            feature: Feature::KvApiGetKv,
            since: Version { major: 1, minor: 2, patch: 163 },
            until: Version { major: 1, minor: 2, patch: 287 },
        },
        FeatureSpan {
            feature: Feature::KvApiMGetKv,
            since: Version { major: 1, minor: 2, patch: 163 },
            until: Version { major: 1, minor: 2, patch: 287 },
        },
        FeatureSpan {
            feature: Feature::KvApiListKv,
            since: Version { major: 1, minor: 2, patch: 163 },
            until: Version { major: 1, minor: 2, patch: 287 },
        },
        FeatureSpan {
            feature: Feature::KvReadV1,
            since: Version { major: 1, minor: 2, patch: 176 },
            until: Version::max_spec(),
        },
        FeatureSpan {
            feature: Feature::Transaction,
            since: Version { major: 1, minor: 2, patch: 259 },
            until: Version::max_spec(),
        },
        FeatureSpan {
            feature: Feature::TransactionReplyError,
            since: Version { major: 1, minor: 2, patch: 258 },
            until: Version { major: 1, minor: 2, patch: 676 },
        },
        FeatureSpan {
            feature: Feature::TransactionPutWithTtl,
            since: Version { major: 1, minor: 2, patch: 361 },
            until: Version::max_spec(),
        },
        FeatureSpan {
            feature: Feature::TransactionConditionKeysPrefix,
            since: Version { major: 1, minor: 2, patch: 726 },
            until: Version::max_spec(),
        },
        FeatureSpan {
            feature: Feature::TransactionOperations,
            since: Version { major: 1, minor: 2, patch: 726 },
            until: Version::max_spec(),
        },
        FeatureSpan {
            feature: Feature::OperationAsIs,
            since: Version { major: 1, minor: 2, patch: 163 },
            until: Version { major: 1, minor: 2, patch: 663 },
        },
        FeatureSpan {
            feature: Feature::Export,
            since: Version { major: 1, minor: 2, patch: 259 },
            until: Version::max_spec(),
        },
        FeatureSpan {
            feature: Feature::ExportV1,
            since: Version::max_spec(),
            until: Version::max_spec(),
        },
        FeatureSpan {
            feature: Feature::Watch,
            since: Version { major: 1, minor: 2, patch: 259 },
            until: Version::max_spec(),
        },
        FeatureSpan {
            feature: Feature::WatchInitialFlush,
            since: Version { major: 1, minor: 2, patch: 726 },
            until: Version::max_spec(),
        },
        FeatureSpan {
            feature: Feature::WatchResponseIsInit,
            since: Version { major: 1, minor: 2, patch: 726 },
            until: Version::max_spec(),
        },
        FeatureSpan {
            feature: Feature::MemberList,
            since: Version { major: 1, minor: 2, patch: 259 },
            until: Version::max_spec(),
        },
        FeatureSpan {
            feature: Feature::GetClusterStatus,
            since: Version { major: 1, minor: 2, patch: 259 },
            until: Version::max_spec(),
        },
        FeatureSpan {
            feature: Feature::GetClientInfo,
            since: Version { major: 1, minor: 2, patch: 259 },
            until: Version::max_spec(),
        },
        FeatureSpan {
            feature: Feature::PutResponseCurrent,
            since: Version { major: 1, minor: 2, patch: 756 },
            until: Version::max_spec(),
        },
        FeatureSpan {
            feature: Feature::FetchAddU64,
            since: Version { major: 1, minor: 2, patch: 821 },
            until: Version::max_spec(),
        },
        FeatureSpan {
            feature: Feature::ExpireInMillis,
            since: Version { major: 260205, minor: 0, patch: 0 },
            until: Version::max_spec(),
        },
        FeatureSpan {
            feature: Feature::PutSequential,
            since: Version { major: 260205, minor: 0, patch: 0 },
            until: Version::max_spec(),
        },
        FeatureSpan {
            feature: Feature::ProposedAtMs,
            since: Version::max_spec(),
            until: Version::max_spec(),
        },
        FeatureSpan {
            feature: Feature::FetchIncreaseU64,
            since: Version::max_spec(),
            until: Version::max_spec(),
        },
        FeatureSpan {
            feature: Feature::KvList,
            since: Version::max_spec(),
            until: Version::max_spec(),
        },
        FeatureSpan {
            feature: Feature::KvGetMany,
            since: Version::max_spec(),
            until: Version::max_spec(),
        },
    ]
}

/// Version and feature information for compatibility calculation.
///
/// Contains the current build version and the full history of when features
/// were added or removed on both server and client sides. Used to calculate
/// minimum compatible versions. Immutable after construction.
pub struct Spec {
    /// The build version this instance was created for.
    version: Version,
    /// When each feature was added/removed on the server side.
    server_features: Vec<FeatureSpan>,
    /// When each feature was added/removed on the client side.
    client_features: Vec<FeatureSpan>,
}

impl Spec {
    /// Both role tables cover the catalog, one record per feature in the
    /// catalog order. Established once at construction, never broken after.
    #[verifier::type_invariant]
    pub closed spec fn wf(self) -> bool {
        spans_aligned(self.server_features@) && spans_aligned(self.client_features@)
    }

    /// The build version this instance was created for.
    pub closed spec fn version_spec(self) -> Version {
        self.version
    }

    /// The server-side feature spans, in catalog order.
    pub closed spec fn server_spans(self) -> Seq<FeatureSpan> {
        self.server_features@
    }

    /// The client-side feature spans, in catalog order.
    pub closed spec fn client_spans(self) -> Seq<FeatureSpan> {
        self.client_features@
    }

    /// Returns the build version this instance was created for.
    pub fn version(&self) -> (r: &Version)
        ensures
            *r == self.version_spec(),
    {
        &self.version
    }

    /// Returns the server-side feature spans.
    pub fn server_features(&self) -> (r: &Vec<FeatureSpan>)
        ensures
            r@ == self.server_spans(),
            spans_aligned(r@),
    {
        proof {
            use_type_invariant(self);
        }
        &self.server_features
    }

    /// Returns the client-side feature spans.
    pub fn client_features(&self) -> (r: &Vec<FeatureSpan>)
        ensures
            r@ == self.client_spans(),
            spans_aligned(r@),
    {
        proof {
            use_type_invariant(self);
        }
        &self.client_features
    }

    /// Checks that a role table covers the whole catalog, one record per
    /// feature in the catalog order. A `false` signals catalog/registry
    /// drift: someone added a capability without recording its history.
    pub fn assert_all_features(spans: &Vec<FeatureSpan>) -> (r: bool)
        ensures
            r == spans_aligned(spans@),
    {
        let feats = Feature::all();
        if spans.len() != feats.len() {
            return false;
        }
        let n = feats.len();
        for k in 0..n
            invariant
                n == catalog().len(),
                feats@ == catalog(),
                spans@.len() == n,
                forall|i: int| 0 <= i < k ==> (#[trigger] spans@[i]).feature == catalog()[i],
        {
            if spans[k].feature != feats[k] {
                return false;
            }
        }
        true
    }

    /// Builds a registry from a version and two role tables.
    ///
    /// Fails exactly where a table does not cover the whole catalog
    /// (catalog/registry drift).
    pub fn from_spans(
        version: Version,
        server_features: Vec<FeatureSpan>,
        client_features: Vec<FeatureSpan>,
    ) -> (r: Option<Spec>)
        ensures
            r is Some <==> spans_aligned(server_features@) && spans_aligned(client_features@),
            r matches Some(s) ==> s.version_spec() == version && s.server_spans()
                == server_features@ && s.client_spans() == client_features@,
    {
        if Spec::assert_all_features(&server_features) && Spec::assert_all_features(&client_features) {
            Some(Spec { version, server_features, client_features })
        } else {
            None
        }
    }
}

impl Spec {
    /// Creates a new instance with all feature history for the current build version.
    pub fn load() -> (r: Spec)
        ensures
            r.version_spec() == crate::build_version(),
            r.server_spans() == server_lifetimes(),
            r.client_spans() == client_lifetimes(),
            spans_aligned(r.server_spans()),
            spans_aligned(r.client_spans()),
            spans_history_wf(r.server_spans()),
            spans_history_wf(r.client_spans()),
    {
        Spec::new(crate::version())
    }

    /// Builds the registry for `version` by replaying the chronological
    /// history of feature additions and removals on both sides.
    ///
    /// The history is literal, ordered data: each line records one event,
    /// and the contracts of [`add`] and [`remove`] hold every event to the
    /// add-before-remove, at-most-one-add-one-remove discipline.
    #[verifier::rlimit(60)]
    pub fn new(version: Version) -> (r: Spec)
        ensures
            r.version_spec() == version,
            r.server_spans() == server_lifetimes(),
            r.client_spans() == client_lifetimes(),
            spans_aligned(r.server_spans()),
            spans_aligned(r.client_spans()),
            spans_history_wf(r.server_spans()),
            spans_history_wf(r.client_spans()),
    {
        let mut srv = initial_spans();
        let mut cli = initial_spans();

        // 2023-10-17: since 1.2.163:
        // server: add stream api kv_read_v1().
        // (fake version for features already provided for a while)
        crate::registry::add(&mut srv, Feature::OperationAsIs, Version::new(1, 2, 163));
        crate::registry::add(&mut srv, Feature::KvApi, Version::new(1, 2, 163));
        crate::registry::add(&mut srv, Feature::KvApiGetKv, Version::new(1, 2, 163));
        crate::registry::add(&mut srv, Feature::KvApiMGetKv, Version::new(1, 2, 163));
        crate::registry::add(&mut srv, Feature::KvApiListKv, Version::new(1, 2, 163));
        crate::registry::add(&mut srv, Feature::KvReadV1, Version::new(1, 2, 163));

        crate::registry::add(&mut cli, Feature::OperationAsIs, Version::new(1, 2, 163));
        crate::registry::add(&mut cli, Feature::KvApi, Version::new(1, 2, 163));
        crate::registry::add(&mut cli, Feature::KvApiGetKv, Version::new(1, 2, 163));
        crate::registry::add(&mut cli, Feature::KvApiMGetKv, Version::new(1, 2, 163));
        crate::registry::add(&mut cli, Feature::KvApiListKv, Version::new(1, 2, 163));

        // 2023-10-20: since 1.2.176:
        // client: call stream api kv_read_v1(), revert to 1.1.32 if server < 1.2.163
        crate::registry::add(&mut cli, Feature::KvReadV1, Version::new(1, 2, 176));

        // 2023-12-16: since 1.2.258:
        // server: add ttl to TxnPutRequest and Upsert
        crate::registry::add(&mut srv, Feature::Transaction, Version::new(1, 2, 258));
        crate::registry::add(&mut srv, Feature::TransactionReplyError, Version::new(1, 2, 258));
        crate::registry::add(&mut srv, Feature::TransactionPutWithTtl, Version::new(1, 2, 258));

        crate::registry::add(&mut cli, Feature::TransactionReplyError, Version::new(1, 2, 258));

        // 1.2.259: (fake version, 1.2.258 binary outputs 1.2.257)
        // server: add Export, Watch, MemberList, GetClusterStatus, GetClientInfo
        crate::registry::add(&mut srv, Feature::Export, Version::new(1, 2, 259));
        crate::registry::add(&mut srv, Feature::Watch, Version::new(1, 2, 259));
        crate::registry::add(&mut srv, Feature::MemberList, Version::new(1, 2, 259));
        crate::registry::add(&mut srv, Feature::GetClusterStatus, Version::new(1, 2, 259));
        crate::registry::add(&mut srv, Feature::GetClientInfo, Version::new(1, 2, 259));

        crate::registry::add(&mut cli, Feature::Transaction, Version::new(1, 2, 259));
        crate::registry::add(&mut cli, Feature::Export, Version::new(1, 2, 259));
        crate::registry::add(&mut cli, Feature::Watch, Version::new(1, 2, 259));
        crate::registry::add(&mut cli, Feature::MemberList, Version::new(1, 2, 259));
        crate::registry::add(&mut cli, Feature::GetClusterStatus, Version::new(1, 2, 259));
        crate::registry::add(&mut cli, Feature::GetClientInfo, Version::new(1, 2, 259));

        // 2024-01-07: since 1.2.287:
        // client: remove calling RPC kv_api() with MetaGrpcReq::GetKV/MGetKV/ListKV
        crate::registry::remove(&mut cli, Feature::KvApiGetKv, Version::new(1, 2, 287));
        crate::registry::remove(&mut cli, Feature::KvApiMGetKv, Version::new(1, 2, 287));
        crate::registry::remove(&mut cli, Feature::KvApiListKv, Version::new(1, 2, 287));

        // 2024-01-25: since 1.2.315:
        // server: add export_v1() to let client specify export chunk size
        crate::registry::add(&mut srv, Feature::ExportV1, Version::new(1, 2, 315));

        // 2024-03-04: since 1.2.361:
        // client: `MetaSpec` use `ttl`, remove `expire_at`, require 1.2.258
        crate::registry::add(&mut cli, Feature::TransactionPutWithTtl, Version::new(1, 2, 361));

        // 2024-11-22: since 1.2.663:
        // server: remove MetaGrpcReq::GetKV/MGetKV/ListKV
        crate::registry::remove(&mut srv, Feature::KvApiGetKv, Version::new(1, 2, 663));
        crate::registry::remove(&mut srv, Feature::KvApiMGetKv, Version::new(1, 2, 663));
        crate::registry::remove(&mut srv, Feature::KvApiListKv, Version::new(1, 2, 663));

        // 2024-11-23: since 1.2.663:
        // client: remove use of Operation::AsIs
        crate::registry::remove(&mut cli, Feature::OperationAsIs, Version::new(1, 2, 663));

        // 2024-12-16: since 1.2.674:
        // server: add txn_condition::Target::KeysWithPrefix
        crate::registry::add(
            &mut srv,
            Feature::TransactionConditionKeysPrefix,
            Version::new(1, 2, 674),
        );

        // 2024-12-20: since 1.2.676:
        // server: add TxnRequest::operations
        // server: no longer use TxnReply::error
        crate::registry::add(&mut srv, Feature::TransactionOperations, Version::new(1, 2, 676));

        // client: no longer use TxnReply::error
        crate::registry::remove(&mut cli, Feature::TransactionReplyError, Version::new(1, 2, 676));

        // 2024-12-26: since 1.2.677:
        // server: add WatchRequest::initial_flush
        crate::registry::add(&mut srv, Feature::WatchInitialFlush, Version::new(1, 2, 677));

        // 2025-04-15: since 1.2.726:
        // client: requires 1.2.677
        crate::registry::add(&mut cli, Feature::WatchInitialFlush, Version::new(1, 2, 726));
        crate::registry::add(&mut cli, Feature::WatchResponseIsInit, Version::new(1, 2, 726));
        crate::registry::add(
            &mut cli,
            Feature::TransactionConditionKeysPrefix,
            Version::new(1, 2, 726),
        );
        crate::registry::add(&mut cli, Feature::TransactionOperations, Version::new(1, 2, 726));

        // 2025-05-08: since 1.2.736:
        // server: add WatchResponse::is_initialization
        crate::registry::add(&mut srv, Feature::WatchResponseIsInit, Version::new(1, 2, 736));

        // 2025-06-09: since 1.2.755:
        // server: remove TxnReply::error
        crate::registry::remove(&mut srv, Feature::TransactionReplyError, Version::new(1, 2, 755));

        // 2025-06-11: since 1.2.756:
        // server: add TxnPutResponse::current
        crate::registry::add(&mut srv, Feature::PutResponseCurrent, Version::new(1, 2, 756));

        crate::registry::add(&mut cli, Feature::PutResponseCurrent, Version::new(1, 2, 756));

        // 2025-06-24: since 1.2.764:
        // server: add FetchAddU64 operation to the TxnOp
        crate::registry::add(&mut srv, Feature::FetchAddU64, Version::new(1, 2, 764));

        // 2025-07-03: since 1.2.770:
        // server: adaptive expire_at support both seconds and milliseconds
        crate::registry::add(&mut srv, Feature::ExpireInMillis, Version::new(1, 2, 770));
        // 2025-07-04: since 1.2.770:
        // server: add PutSequential
        crate::registry::add(&mut srv, Feature::PutSequential, Version::new(1, 2, 770));

        // 2025-09-27: since 1.2.821:
        // client: require 1.2.764(yanked), use 1.2.768, for FetchAddU64
        crate::registry::add(&mut cli, Feature::FetchAddU64, Version::new(1, 2, 821));

        // 2025-09-30: since 1.2.823:
        // server: store raft-log proposing time proposed_at_ms in KVMeta
        crate::registry::add(&mut srv, Feature::ProposedAtMs, Version::new(1, 2, 823));

        // 2025-09-27: since 1.2.823:
        // client: require 1.2.770, remove calling RPC kv_api
        crate::registry::remove(&mut cli, Feature::KvApi, Version::new(1, 2, 823));

        // 2025-10-16: since 1.2.828:
        // server: rename FetchAddU64 to FetchIncreaseU64, add max_value
        crate::registry::add(&mut srv, Feature::FetchIncreaseU64, Version::new(1, 2, 828));

        // 2026-01-12: since 1.2.869:
        // server: add kv_list gRPC API
        crate::registry::add(&mut srv, Feature::KvList, Version::new(1, 2, 869));
        // 2026-01-13: since 1.2.869:
        // server: add kv_get_many gRPC API
        crate::registry::add(&mut srv, Feature::KvGetMany, Version::new(1, 2, 869));

        // 2026-02-05:
        // client: allows the application to use expire in millis
        crate::registry::add(&mut cli, Feature::ExpireInMillis, Version::new(260205, 0, 0));
        crate::registry::add(&mut cli, Feature::PutSequential, Version::new(260205, 0, 0));

        // client not yet using these features: `since = MAX` reserves them
        // until some client build adopts them
        crate::registry::add(&mut cli, Feature::ExportV1, Version::max());
        crate::registry::add(&mut cli, Feature::ProposedAtMs, Version::max());
        crate::registry::add(&mut cli, Feature::FetchIncreaseU64, Version::max());
        crate::registry::add(&mut cli, Feature::KvList, Version::max());
        crate::registry::add(&mut cli, Feature::KvGetMany, Version::max());

        proof {
            assert(srv@ =~= server_lifetimes());
            assert(cli@ =~= client_lifetimes());
        }
        Spec { version, server_features: srv, client_features: cli }
    }
}

/// `r` bounds from above the `since` of every server span whose client-side
/// counterpart is active at `v`: a server at or past `r` supports every
/// feature the client exercises at `v`.
pub open spec fn bounds_server_candidates(s: Spec, v: Version, r: Version) -> bool {
    forall|i: int|
        0 <= i < catalog().len() && (#[trigger] s.client_spans()[i]).active_at(v) ==> version_le(
            s.server_spans()[i].since,
            r,
        )
}

/// `r` is `MIN` or one of the server-side `since` candidates counted by
/// [`bounds_server_candidates`]: together they say `r` is the exact maximum.
pub open spec fn attains_server_candidate(s: Spec, v: Version, r: Version) -> bool {
    r == Version::min_spec() || exists|i: int|
        0 <= i < catalog().len() && (#[trigger] s.client_spans()[i]).active_at(v) && r
            == s.server_spans()[i].since
}

/// `r` bounds from above the `until` of every client span whose server-side
/// counterpart is not active at `v`: a client at or past `r` no longer
/// depends on any feature the server lacks at `v`.
pub open spec fn bounds_client_candidates(s: Spec, v: Version, r: Version) -> bool {
    forall|i: int|
        0 <= i < catalog().len() && !(#[trigger] s.server_spans()[i]).active_at(v) ==> version_le(
            s.client_spans()[i].until,
            r,
        )
}

/// `r` is `MIN` or one of the client-side `until` candidates counted by
/// [`bounds_client_candidates`]: together they say `r` is the exact maximum.
pub open spec fn attains_client_candidate(s: Spec, v: Version, r: Version) -> bool {
    r == Version::min_spec() || exists|i: int|
        0 <= i < catalog().len() && !(#[trigger] s.server_spans()[i]).active_at(v) && r
            == s.client_spans()[i].until
}

impl Spec {
    /// Minimum server version that can serve this client.
    ///
    /// Returns `max(server.since)` across all features the client requires
    /// at `self.version`, or `MIN` if it requires none.
    pub fn min_compatible_server_version(&self) -> (r: Version)
        ensures
            bounds_server_candidates(*self, self.version_spec(), r),
            attains_server_candidate(*self, self.version_spec(), r),
    {
        proof {
            use_type_invariant(self);
        }
        let mut min_server = Version::min();
        let n = self.client_features.len();
        for i in 0..n
            invariant
                self.wf(),
                n == catalog().len(),
                self.client_spans().len() == n,
                self.server_spans().len() == n,
                forall|j: int|
                    0 <= j < i && (#[trigger] self.client_spans()[j]).active_at(
                        self.version_spec(),
                    ) ==> version_le(self.server_spans()[j].since, min_server),
                min_server == Version::min_spec() || exists|j: int|
                    0 <= j < i && (#[trigger] self.client_spans()[j]).active_at(
                        self.version_spec(),
                    ) && min_server == self.server_spans()[j].since,
        {
            let client_lt = &self.client_features[i];
            let server_lt = &self.server_features[i];
            if client_lt.is_active_at(self.version) {
                if min_server < server_lt.since {
                    min_server = server_lt.since;
                }
            }
        }
        min_server
    }

    /// Minimum client version that can connect to this server.
    ///
    /// Returns `max(client.until)` across all features the server no longer
    /// provides at `self.version`, or `MIN` if it provides them all.
    pub fn min_compatible_client_version(&self) -> (r: Version)
        ensures
            bounds_client_candidates(*self, self.version_spec(), r),
            attains_client_candidate(*self, self.version_spec(), r),
    {
        proof {
            use_type_invariant(self);
        }
        let mut min_client = Version::min();
        let n = self.server_features.len();
        for i in 0..n
            invariant
                self.wf(),
                n == catalog().len(),
                self.client_spans().len() == n,
                self.server_spans().len() == n,
                forall|j: int|
                    0 <= j < i && !(#[trigger] self.server_spans()[j]).active_at(
                        self.version_spec(),
                    ) ==> version_le(self.client_spans()[j].until, min_client),
                min_client == Version::min_spec() || exists|j: int|
                    0 <= j < i && !(#[trigger] self.server_spans()[j]).active_at(
                        self.version_spec(),
                    ) && min_client == self.client_spans()[j].until,
        {
            let client_lt = &self.client_features[i];
            let server_lt = &self.server_features[i];
            if !server_lt.is_active_at(self.version) {
                if min_client < client_lt.until {
                    min_client = client_lt.until;
                }
            }
        }
        min_client
    }
}

/// The two clauses of `min_compatible_server_version`'s contract admit a
/// single value: they describe the exact maximum of the candidates.
pub proof fn lemma_min_server_version_unique(s: Spec, v: Version, r1: Version, r2: Version)
    requires
        bounds_server_candidates(s, v, r1),
        attains_server_candidate(s, v, r1),
        bounds_server_candidates(s, v, r2),
        attains_server_candidate(s, v, r2),
    ensures
        r1 == r2,
{
    assert(version_le(r1, r2));
    assert(version_le(r2, r1));
}

/// The two clauses of `min_compatible_client_version`'s contract admit a
/// single value: they describe the exact maximum of the candidates.
pub proof fn lemma_min_client_version_unique(s: Spec, v: Version, r1: Version, r2: Version)
    requires
        bounds_client_candidates(s, v, r1),
        attains_client_candidate(s, v, r1),
        bounds_client_candidates(s, v, r2),
        attains_client_candidate(s, v, r2),
    ensures
        r1 == r2,
{
    assert(version_le(r1, r2));
    assert(version_le(r2, r1));
}

/// The regression guard for the server bound: evaluated at this build's own
/// version, `min_compatible_server_version` yields exactly the published
/// minimum, 1.2.770.
pub proof fn lemma_build_min_server_version(s: Spec, r: Version)
    requires
        s.version_spec() == crate::build_version(),
        s.server_spans() == server_lifetimes(),
        s.client_spans() == client_lifetimes(),
        bounds_server_candidates(s, s.version_spec(), r),
        attains_server_candidate(s, s.version_spec(), r),
    ensures
        r == (Version { major: 1, minor: 2, patch: 770 }),
{
    let m = Version { major: 1, minor: 2, patch: 770 };
    assert(bounds_server_candidates(s, s.version_spec(), m));
    assert((s.client_spans()[21]).active_at(s.version_spec()) && m == s.server_spans()[
        21
    ].since);
    lemma_min_server_version_unique(s, s.version_spec(), r, m);
}

/// The regression guard for the client bound: evaluated at this build's own
/// version, `min_compatible_client_version` yields exactly the published
/// minimum, 1.2.676.
pub proof fn lemma_build_min_client_version(s: Spec, r: Version)
    requires
        s.version_spec() == crate::build_version(),
        s.server_spans() == server_lifetimes(),
        s.client_spans() == client_lifetimes(),
        bounds_client_candidates(s, s.version_spec(), r),
        attains_client_candidate(s, s.version_spec(), r),
    ensures
        r == (Version { major: 1, minor: 2, patch: 676 }),
{
    let m = Version { major: 1, minor: 2, patch: 676 };
    assert(bounds_client_candidates(s, s.version_spec(), m));
    assert(!(s.server_spans()[6]).active_at(s.version_spec()) && m == s.client_spans()[
        6
    ].until);
    lemma_min_client_version_unique(s, s.version_spec(), r, m);
}

/// Every catalog feature has a record in an aligned table, at its own
/// catalog position.
pub proof fn lemma_table_complete(spans: Seq<FeatureSpan>, f: Feature)
    requires
        spans_aligned(spans),
    ensures
        0 <= f.index_spec() < spans.len(),
        spans[f.index_spec()].feature == f,
        exists|i: int| 0 <= i < spans.len() && (#[trigger] spans[i]).feature == f,
{
    lemma_catalog_index(f);
    assert(0 <= f.index_spec() < spans.len() && spans[f.index_spec()].feature == f);
}

} // verus!
