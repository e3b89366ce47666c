//! The plain records that a usage query produces.
//!
//! `ClusterStat` and `PoolStat` carry, field for field, the counters that the
//! cluster reports for the whole cluster and for a single pool. `PoolInfo`
//! pairs a pool's name with its counters and its configured replication
//! factor, and `UsageInfo` is the aggregate a full query returns.

use vstd::prelude::*;

verus! {

/// Cluster-wide capacity counters, in kilobytes and objects.
#[derive(Clone, Copy, Debug, PartialEq, Eq, Structural)]
pub struct ClusterStat {
    pub kb: u64,
    pub kb_used: u64,
    pub kb_avail: u64,
    pub num_objects: u64,
}

/// Usage counters for a single pool.
#[derive(Clone, Copy, Debug, PartialEq, Eq, Structural)]
pub struct PoolStat {
    pub num_bytes: u64,
    pub num_kb: u64,
    pub num_objects: u64,
    pub num_object_clones: u64,
    pub num_object_copies: u64,
    pub num_objects_missing_on_primary: u64,
    pub num_objects_unfound: u64,
    pub num_objects_degraded: u64,
    pub num_rd: u64,
    pub num_rd_kb: u64,
    pub num_wr: u64,
    pub num_wr_kb: u64,
}

/// One pool's share of the aggregate: its name, its usage counters, and its
/// configured replication factor.
#[derive(Debug)]
pub struct PoolInfo {
    pub name: String,
    pub usage: PoolStat,
    pub pool_size: u32,
}

/// The mathematical value of a `PoolInfo`: the name as a character sequence.
#[verifier::ext_equal]
pub struct PoolInfoV {
    pub name: Seq<char>,
    pub usage: PoolStat,
    pub pool_size: u32,
}

impl View for PoolInfo {
    type V = PoolInfoV;

    open spec fn view(&self) -> PoolInfoV {
        PoolInfoV { name: self.name@, usage: self.usage, pool_size: self.pool_size }
    }
}

impl DeepView for PoolInfo {
    type V = PoolInfoV;

    open spec fn deep_view(&self) -> PoolInfoV {
        self.view()
    }
}

/// Everything one full query reports: the cluster-wide counters and one
/// `PoolInfo` per pool, in the order the cluster listed the pools.
#[derive(Debug)]
pub struct UsageInfo {
    pub cluster_usage: ClusterStat,
    pub pool_usage: Vec<PoolInfo>,
}

/// The mathematical value of a `UsageInfo`.
#[verifier::ext_equal]
pub struct UsageInfoV {
    pub cluster_usage: ClusterStat,
    pub pool_usage: Seq<PoolInfoV>,
}

impl View for UsageInfo {
    type V = UsageInfoV;

    open spec fn view(&self) -> UsageInfoV {
        UsageInfoV {
            cluster_usage: self.cluster_usage,
            pool_usage: self.pool_usage.deep_view(),
        }
    }
}

impl DeepView for UsageInfo {
    type V = UsageInfoV;

    open spec fn deep_view(&self) -> UsageInfoV {
        self.view()
    }
}

} // verus!
