//! The closed catalog of protocol features, each with a stable string
//! identifier and a fixed position in the catalog order.

use vstd::prelude::*;

verus! {

/// A named capability in the meta-service protocol.
///
/// Each variant represents a feature whose lifetime is tracked in
/// [`crate::Spec`] for version compatibility calculation.
#[derive(Debug, Clone, Copy, PartialEq, Eq, Structural, Hash)]
pub enum Feature {
    /// Unary `kv_api()` RPC for key-value operations.
    KvApi,
    /// `kv_api()` sub-operation: get a single key.
    KvApiGetKv,
    /// `kv_api()` sub-operation: get multiple keys.
    KvApiMGetKv,
    /// `kv_api()` sub-operation: list keys by prefix.
    KvApiListKv,
    /// Stream-based `kv_read_v1()` RPC for reading key-value pairs.
    KvReadV1,
    /// `transaction()` RPC for multi-key atomic operations.
    Transaction,
    /// `TxnReply::error` field for returning transaction errors.
    TransactionReplyError,
    /// TTL support in `TxnPutRequest`.
    TransactionPutWithTtl,
    /// Prefix-count condition in `TxnCondition`.
    TransactionConditionKeysPrefix,
    /// Bool-expression operations via `TxnRequest::operations`.
    TransactionOperations,
    /// `Operation::AsIs`: keep value untouched, update only the metadata.
    OperationAsIs,
    /// `export()` RPC for dumping server data.
    Export,
    /// `export_v1()` RPC with configurable chunk size.
    ExportV1,
    /// `watch()` RPC for subscribing to key change events.
    Watch,
    /// `WatchRequest::initial_flush`: flush existing keys at stream start.
    WatchInitialFlush,
    /// `WatchResponse::is_initialization` flag distinguishing init vs change events.
    WatchResponseIsInit,
    /// `member_list()` RPC for cluster membership.
    MemberList,
    /// `get_cluster_status()` RPC for cluster status.
    GetClusterStatus,
    /// `get_client_info()` RPC for connection info and server time.
    GetClientInfo,
    /// `TxnPutResponse::current`: key state after a put operation.
    PutResponseCurrent,
    /// `FetchAddU64` operation in `TxnOp` (deprecated by `FetchIncreaseU64`).
    FetchAddU64,
    /// `expire_at` accepts both seconds and milliseconds timestamps.
    ExpireInMillis,
    /// Sequential put for generating monotonic sequence keys.
    PutSequential,
    /// `KVMeta::proposed_at_ms`: raft-log proposing time in metadata.
    ProposedAtMs,
    /// `FetchIncreaseU64` operation in `TxnOp` with `max_value` support.
    FetchIncreaseU64,
    /// `kv_list()` RPC with pagination via streaming.
    KvList,
    /// `kv_get_many()` RPC with streaming request and response.
    KvGetMany,
}

/// The catalog: every feature, in its fixed, stable order.
pub open spec fn catalog() -> Seq<Feature> {
    seq![
        Feature::KvApi,
        Feature::KvApiGetKv,
        Feature::KvApiMGetKv,
        Feature::KvApiListKv,
        Feature::KvReadV1,
        Feature::Transaction,
        Feature::TransactionReplyError,
        Feature::TransactionPutWithTtl,
        Feature::TransactionConditionKeysPrefix,
        Feature::TransactionOperations,
        Feature::OperationAsIs,
        Feature::Export,
        Feature::ExportV1,
        Feature::Watch,
        Feature::WatchInitialFlush,
        Feature::WatchResponseIsInit,
        Feature::MemberList,
        Feature::GetClusterStatus,
        Feature::GetClientInfo,
        Feature::PutResponseCurrent,
        Feature::FetchAddU64,
        Feature::ExpireInMillis,
        Feature::PutSequential,
        Feature::ProposedAtMs,
        Feature::FetchIncreaseU64,
        Feature::KvList,
        Feature::KvGetMany,
    ]
}

impl Feature {
    /// The position of this feature in the catalog order.
    pub open spec fn index_spec(self) -> int {
        match self {
            Feature::KvApi => 0,
            Feature::KvApiGetKv => 1,
            Feature::KvApiMGetKv => 2,
            Feature::KvApiListKv => 3,
            Feature::KvReadV1 => 4,
            Feature::Transaction => 5,
            Feature::TransactionReplyError => 6,
            Feature::TransactionPutWithTtl => 7,
            Feature::TransactionConditionKeysPrefix => 8,
            Feature::TransactionOperations => 9,
            Feature::OperationAsIs => 10,
            Feature::Export => 11,
            Feature::ExportV1 => 12,
            Feature::Watch => 13,
            Feature::WatchInitialFlush => 14,
            Feature::WatchResponseIsInit => 15,
            Feature::MemberList => 16,
            Feature::GetClusterStatus => 17,
            Feature::GetClientInfo => 18,
            Feature::PutResponseCurrent => 19,
            Feature::FetchAddU64 => 20,
            Feature::ExpireInMillis => 21,
            Feature::PutSequential => 22,
            Feature::ProposedAtMs => 23,
            Feature::FetchIncreaseU64 => 24,
            Feature::KvList => 25,
            Feature::KvGetMany => 26,
        }
    }

    /// The stable string identifier of this feature.
    pub open spec fn str_spec(self) -> Seq<char> {
        match self {
            Feature::KvApi => "kv_api"@,
            Feature::KvApiGetKv => "kv_api/get_kv"@,
            Feature::KvApiMGetKv => "kv_api/mget_kv"@,
            Feature::KvApiListKv => "kv_api/list_kv"@,
            Feature::KvReadV1 => "kv_read_v1"@,
            Feature::Transaction => "transaction"@,
            Feature::TransactionReplyError => "transaction/reply_error"@,
            Feature::TransactionPutWithTtl => "transaction/put_with_ttl"@,
            Feature::TransactionConditionKeysPrefix => "transaction/condition_keys_prefix"@,
            Feature::TransactionOperations => "transaction/operations"@,
            Feature::OperationAsIs => "operation/as_is"@,
            Feature::Export => "export"@,
            Feature::ExportV1 => "export_v1"@,
            Feature::Watch => "watch"@,
            Feature::WatchInitialFlush => "watch/initial_flush"@,
            Feature::WatchResponseIsInit => "watch/init_flag"@,
            Feature::MemberList => "member_list"@,
            Feature::GetClusterStatus => "get_cluster_status"@,
            Feature::GetClientInfo => "get_client_info"@,
            Feature::PutResponseCurrent => "put_response/current"@,
            Feature::FetchAddU64 => "fetch_add_u64"@,
            Feature::ExpireInMillis => "expire_in_millis"@,
            Feature::PutSequential => "put_sequential"@,
            Feature::ProposedAtMs => "proposed_at_ms"@,
            Feature::FetchIncreaseU64 => "fetch_increase_u64"@,
            Feature::KvList => "kv_list"@,
            Feature::KvGetMany => "kv_get_many"@,
        }
    }

    /// Returns all feature variants, in the catalog order.
    pub fn all() -> (r: Vec<Feature>)
        ensures
            r@ == catalog(),
    {
        let r: Vec<Feature> = vec![
            Feature::KvApi,
            Feature::KvApiGetKv,
            Feature::KvApiMGetKv,
            Feature::KvApiListKv,
            Feature::KvReadV1,
            Feature::Transaction,
            Feature::TransactionReplyError,
            Feature::TransactionPutWithTtl,
            Feature::TransactionConditionKeysPrefix,
            Feature::TransactionOperations,
            Feature::OperationAsIs,
            Feature::Export,
            Feature::ExportV1,
            Feature::Watch,
            Feature::WatchInitialFlush,
            Feature::WatchResponseIsInit,
            Feature::MemberList,
            Feature::GetClusterStatus,
            Feature::GetClientInfo,
            Feature::PutResponseCurrent,
            Feature::FetchAddU64,
            Feature::ExpireInMillis,
            Feature::PutSequential,
            Feature::ProposedAtMs,
            Feature::FetchIncreaseU64,
            Feature::KvList,
            Feature::KvGetMany,
        ];
        proof {
            assert(r@ =~= catalog());
        }
        r
    }

    /// Returns the position of this feature in the catalog order.
    pub fn index(&self) -> (i: usize)
        ensures
            i == self.index_spec(),
    {
        match self {
            Feature::KvApi => 0,
            Feature::KvApiGetKv => 1,
            Feature::KvApiMGetKv => 2,
            Feature::KvApiListKv => 3,
            Feature::KvReadV1 => 4,
            Feature::Transaction => 5,
            Feature::TransactionReplyError => 6,
            Feature::TransactionPutWithTtl => 7,
            Feature::TransactionConditionKeysPrefix => 8,
            Feature::TransactionOperations => 9,
            Feature::OperationAsIs => 10,
            Feature::Export => 11,
            Feature::ExportV1 => 12,
            Feature::Watch => 13,
            Feature::WatchInitialFlush => 14,
            Feature::WatchResponseIsInit => 15,
            Feature::MemberList => 16,
            Feature::GetClusterStatus => 17,
            Feature::GetClientInfo => 18,
            Feature::PutResponseCurrent => 19,
            Feature::FetchAddU64 => 20,
            Feature::ExpireInMillis => 21,
            Feature::PutSequential => 22,
            Feature::ProposedAtMs => 23,
            Feature::FetchIncreaseU64 => 24,
            Feature::KvList => 25,
            Feature::KvGetMany => 26,
        }
    }

    /// Returns the string identifier for this feature.
    pub fn as_str(&self) -> (r: &'static str)
        ensures
            r@ == self.str_spec(),
    {
        match self {
            Feature::KvApi => "kv_api",
            Feature::KvApiGetKv => "kv_api/get_kv",
            Feature::KvApiMGetKv => "kv_api/mget_kv",
            Feature::KvApiListKv => "kv_api/list_kv",
            Feature::KvReadV1 => "kv_read_v1",
            Feature::Transaction => "transaction",
            Feature::TransactionReplyError => "transaction/reply_error",
            Feature::TransactionPutWithTtl => "transaction/put_with_ttl",
            Feature::TransactionConditionKeysPrefix => "transaction/condition_keys_prefix",
            Feature::TransactionOperations => "transaction/operations",
            Feature::OperationAsIs => "operation/as_is",
            Feature::Export => "export",
            Feature::ExportV1 => "export_v1",
            Feature::Watch => "watch",
            Feature::WatchInitialFlush => "watch/initial_flush",
            Feature::WatchResponseIsInit => "watch/init_flag",
            Feature::MemberList => "member_list",
            Feature::GetClusterStatus => "get_cluster_status",
            Feature::GetClientInfo => "get_client_info",
            Feature::PutResponseCurrent => "put_response/current",
            Feature::FetchAddU64 => "fetch_add_u64",
            Feature::ExpireInMillis => "expire_in_millis",
            Feature::PutSequential => "put_sequential",
            Feature::ProposedAtMs => "proposed_at_ms",
            Feature::FetchIncreaseU64 => "fetch_increase_u64",
            Feature::KvList => "kv_list",
            Feature::KvGetMany => "kv_get_many",
        }
    }
}

/// Every feature stands in the catalog, at its own position: the catalog
/// is the exhaustiveness anchor for the registry's completeness check.
pub proof fn lemma_catalog_index(f: Feature)
    ensures
        0 <= f.index_spec() < catalog().len(),
        catalog()[f.index_spec()] == f,
{
}

} // verus!
