//! One full usage query, driven as a state machine.
//!
//! The cluster is external, shared state reached over the network, so the
//! library never talks to it directly. Instead, a query is a sequence of
//! small steps: `start` names the first action to perform against the
//! cluster, and `step` consumes the event that the action produced and either
//! names the next action, finishes with the aggregate `UsageInfo`, or fails
//! with the first error met. A caller loops: perform the pending action, feed
//! the outcome back in as a `QueryEvent`.
//!
//! The actions spell out the calls the cluster's client library offers:
//! open a session, stat the whole cluster, list the pool names, stat one
//! pool (through a pool-scoped context), and read one pool's size option.

use vstd::prelude::*;

use crate::size::parse_error_of;
use crate::size::parse_pool_size;
use crate::size::pool_size_of;
use crate::stats::ClusterStat;
use crate::stats::PoolInfo;
use crate::stats::PoolInfoV;
use crate::stats::PoolStat;
use crate::stats::UsageInfo;
use crate::stats::UsageInfoV;

verus! {

/// What a query asks its caller to do next against the cluster.
#[derive(Debug)]
pub enum QueryAction {
    /// Open a session with the cluster.
    OpenSession,
    /// Fetch the cluster-wide statistics.
    StatCluster,
    /// List the names of all pools.
    ListPools,
    /// Open a context scoped to the named pool and fetch its statistics.
    StatPool(String),
    /// Read the named pool's size option as text.
    GetSizeOption(String),
}

/// The mathematical value of a `QueryAction`.
#[verifier::ext_equal]
pub enum QueryActionV {
    OpenSession,
    StatCluster,
    ListPools,
    StatPool(Seq<char>),
    GetSizeOption(Seq<char>),
}

impl View for QueryAction {
    type V = QueryActionV;

    open spec fn view(&self) -> QueryActionV {
        match self {
            QueryAction::OpenSession => QueryActionV::OpenSession,
            QueryAction::StatCluster => QueryActionV::StatCluster,
            QueryAction::ListPools => QueryActionV::ListPools,
            QueryAction::StatPool(name) => QueryActionV::StatPool(name@),
            QueryAction::GetSizeOption(name) => QueryActionV::GetSizeOption(name@),
        }
    }
}

/// What performing an action against the cluster produced.
#[derive(Debug)]
pub enum QueryEvent {
    /// The session is open.
    SessionOpened,
    /// The cluster-wide statistics.
    ClusterStats(ClusterStat),
    /// The pool names, in the order the cluster listed them.
    PoolList(Vec<String>),
    /// The statistics of the pool that was asked about.
    PoolStats(PoolStat),
    /// The size-option text of the pool that was asked about.
    PoolSizeOption(String),
    /// The action failed with this error text.
    Failed(String),
}

/// The mathematical value of a `QueryEvent`.
#[verifier::ext_equal]
pub enum QueryEventV {
    SessionOpened,
    ClusterStats(ClusterStat),
    PoolList(Seq<Seq<char>>),
    PoolStats(PoolStat),
    PoolSizeOption(Seq<char>),
    Failed(Seq<char>),
}

impl View for QueryEvent {
    type V = QueryEventV;

    open spec fn view(&self) -> QueryEventV {
        match self {
            QueryEvent::SessionOpened => QueryEventV::SessionOpened,
            QueryEvent::ClusterStats(c) => QueryEventV::ClusterStats(*c),
            QueryEvent::PoolList(pools) => QueryEventV::PoolList(pools.deep_view()),
            QueryEvent::PoolStats(s) => QueryEventV::PoolStats(*s),
            QueryEvent::PoolSizeOption(opt) => QueryEventV::PoolSizeOption(opt@),
            QueryEvent::Failed(e) => QueryEventV::Failed(e@),
        }
    }
}

/// Where a query stands: which answer it is waiting for, and what it has
/// gathered so far.
#[derive(Debug)]
pub enum QueryState {
    /// Waiting for the session to open.
    Connecting,
    /// Waiting for the cluster-wide statistics.
    StattingCluster,
    /// Waiting for the pool list.
    ListingPools { cluster: ClusterStat },
    /// Waiting for the statistics of `pools[idx]`; the pools before `idx`
    /// are done and their records sit in `collected`.
    StattingPool { cluster: ClusterStat, pools: Vec<String>, idx: usize, collected: Vec<PoolInfo> },
    /// Waiting for the size option of `pools[idx]`, whose statistics came
    /// back as `stats`.
    FetchingSize {
        cluster: ClusterStat,
        pools: Vec<String>,
        idx: usize,
        collected: Vec<PoolInfo>,
        stats: PoolStat,
    },
}

/// The mathematical value of a `QueryState`.
#[verifier::ext_equal]
pub enum QueryStateV {
    Connecting,
    StattingCluster,
    ListingPools { cluster: ClusterStat },
    StattingPool {
        cluster: ClusterStat,
        pools: Seq<Seq<char>>,
        idx: int,
        collected: Seq<PoolInfoV>,
    },
    FetchingSize {
        cluster: ClusterStat,
        pools: Seq<Seq<char>>,
        idx: int,
        collected: Seq<PoolInfoV>,
        stats: PoolStat,
    },
}

impl View for QueryState {
    type V = QueryStateV;

    open spec fn view(&self) -> QueryStateV {
        match self {
            QueryState::Connecting => QueryStateV::Connecting,
            QueryState::StattingCluster => QueryStateV::StattingCluster,
            QueryState::ListingPools { cluster } => QueryStateV::ListingPools { cluster: *cluster },
            QueryState::StattingPool { cluster, pools, idx, collected } => {
                QueryStateV::StattingPool {
                    cluster: *cluster,
                    pools: pools.deep_view(),
                    idx: *idx as int,
                    collected: collected.deep_view(),
                }
            },
            QueryState::FetchingSize { cluster, pools, idx, collected, stats } => {
                QueryStateV::FetchingSize {
                    cluster: *cluster,
                    pools: pools.deep_view(),
                    idx: *idx as int,
                    collected: collected.deep_view(),
                    stats: *stats,
                }
            },
        }
    }
}

/// What one step of the query produced: the next state and the action whose
/// event it waits for, the finished aggregate, or the first error met.
#[derive(Debug)]
pub enum QueryOutcome {
    Pending(QueryState, QueryAction),
    Finished(UsageInfo),
    Failed(String),
}

/// The mathematical value of a `QueryOutcome`.
#[verifier::ext_equal]
pub enum QueryOutcomeV {
    Pending(QueryStateV, QueryActionV),
    Finished(UsageInfoV),
    Failed(Seq<char>),
}

impl View for QueryOutcome {
    type V = QueryOutcomeV;

    open spec fn view(&self) -> QueryOutcomeV {
        match self {
            QueryOutcome::Pending(st, a) => QueryOutcomeV::Pending(st@, a@),
            QueryOutcome::Finished(u) => QueryOutcomeV::Finished(u@),
            QueryOutcome::Failed(e) => QueryOutcomeV::Failed(e@),
        }
    }
}

/// The error text for an event that does not answer the pending action.
pub open spec fn protocol_error() -> Seq<char> {
    "unexpected event for the pending query action"@
}

/// The transition relation of the query machine, one step at a time: what
/// `step` returns, as a function of the values alone.
pub open spec fn spec_step(st: QueryStateV, ev: QueryEventV) -> QueryOutcomeV {
    match ev {
        QueryEventV::Failed(e) => QueryOutcomeV::Failed(e),
        _ => match st {
            QueryStateV::Connecting => {
                if ev == QueryEventV::SessionOpened {
                    QueryOutcomeV::Pending(QueryStateV::StattingCluster, QueryActionV::StatCluster)
                } else {
                    QueryOutcomeV::Failed(protocol_error())
                }
            },
            QueryStateV::StattingCluster => {
                if ev is ClusterStats {
                    QueryOutcomeV::Pending(
                        QueryStateV::ListingPools { cluster: ev->ClusterStats_0 },
                        QueryActionV::ListPools,
                    )
                } else {
                    QueryOutcomeV::Failed(protocol_error())
                }
            },
            QueryStateV::ListingPools { cluster } => {
                if ev is PoolList {
                    let pools = ev->PoolList_0;
                    if pools.len() == 0 {
                        QueryOutcomeV::Finished(
                            UsageInfoV { cluster_usage: cluster, pool_usage: Seq::empty() },
                        )
                    } else {
                        QueryOutcomeV::Pending(
                            QueryStateV::StattingPool {
                                cluster,
                                pools,
                                idx: 0,
                                collected: Seq::empty(),
                            },
                            QueryActionV::StatPool(pools[0]),
                        )
                    }
                } else {
                    QueryOutcomeV::Failed(protocol_error())
                }
            },
            QueryStateV::StattingPool { cluster, pools, idx, collected } => {
                if ev is PoolStats && 0 <= idx < pools.len() {
                    QueryOutcomeV::Pending(
                        QueryStateV::FetchingSize {
                            cluster,
                            pools,
                            idx,
                            collected,
                            stats: ev->PoolStats_0,
                        },
                        QueryActionV::GetSizeOption(pools[idx]),
                    )
                } else {
                    QueryOutcomeV::Failed(protocol_error())
                }
            },
            QueryStateV::FetchingSize { cluster, pools, idx, collected, stats } => {
                if ev is PoolSizeOption && 0 <= idx < pools.len() {
                    let opt = ev->PoolSizeOption_0;
                    match pool_size_of(opt) {
                        None => QueryOutcomeV::Failed(parse_error_of(opt)),
                        Some(n) => {
                            let done = collected.push(
                                PoolInfoV { name: pools[idx], usage: stats, pool_size: n },
                            );
                            if idx + 1 == pools.len() {
                                QueryOutcomeV::Finished(
                                    UsageInfoV { cluster_usage: cluster, pool_usage: done },
                                )
                            } else {
                                QueryOutcomeV::Pending(
                                    QueryStateV::StattingPool {
                                        cluster,
                                        pools,
                                        idx: idx + 1,
                                        collected: done,
                                    },
                                    QueryActionV::StatPool(pools[idx + 1]),
                                )
                            }
                        },
                    }
                } else {
                    QueryOutcomeV::Failed(protocol_error())
                }
            },
        },
    }
}

/// How a whole run of the machine ends, over a sequence of observed events.
#[verifier::ext_equal]
pub enum QueryRun {
    /// The events ran out while the machine still waited for more.
    Incomplete(QueryStateV),
    /// The aggregate was completed.
    Finished(UsageInfoV),
    /// The first error met ended the run.
    Failed(Seq<char>),
}

/// Run the machine from `st` over `events`, stepping once per event until it
/// finishes, fails, or runs out of events.
pub open spec fn run_from(st: QueryStateV, events: Seq<QueryEventV>) -> QueryRun
    decreases events.len(),
{
    if events.len() == 0 {
        QueryRun::Incomplete(st)
    } else {
        match spec_step(st, events[0]) {
            QueryOutcomeV::Pending(next, _) => run_from(next, events.drop_first()),
            QueryOutcomeV::Finished(u) => QueryRun::Finished(u),
            QueryOutcomeV::Failed(e) => QueryRun::Failed(e),
        }
    }
}

/// The events a cluster produces for the pools from position `i` on when
/// every per-pool call succeeds: each pool's statistics, then its size
/// option.
pub open spec fn pool_events(stats: Seq<PoolStat>, opts: Seq<Seq<char>>, i: int) -> Seq<
    QueryEventV,
>
    decreases stats.len() - i,
{
    if i < 0 || i >= stats.len() || stats.len() != opts.len() {
        Seq::empty()
    } else {
        seq![QueryEventV::PoolStats(stats[i]), QueryEventV::PoolSizeOption(opts[i])]
            + pool_events(stats, opts, i + 1)
    }
}

/// The events of one full, successful query pass: a session, the cluster
/// statistics, the pool list, then the two per-pool answers for each pool in
/// listed order.
pub open spec fn query_events(
    cluster: ClusterStat,
    pools: Seq<Seq<char>>,
    stats: Seq<PoolStat>,
    opts: Seq<Seq<char>>,
) -> Seq<QueryEventV> {
    seq![
        QueryEventV::SessionOpened,
        QueryEventV::ClusterStats(cluster),
        QueryEventV::PoolList(pools),
    ] + pool_events(stats, opts, 0)
}

/// The per-pool records a successful pass builds for the pools from position
/// `i` on: each pool's own name, its own statistics, and the replication
/// factor read out of its own size option.
pub open spec fn built_from(
    pools: Seq<Seq<char>>,
    stats: Seq<PoolStat>,
    opts: Seq<Seq<char>>,
    i: int,
) -> Seq<PoolInfoV> {
    Seq::new(
        (pools.len() - i) as nat,
        |j: int|
            PoolInfoV {
                name: pools[i + j],
                usage: stats[i + j],
                pool_size: pool_size_of(opts[i + j])->Some_0,
            },
    )
}

/// The full pool list a successful pass builds, one record per pool in
/// listed order.
pub open spec fn built_pools(
    pools: Seq<Seq<char>>,
    stats: Seq<PoolStat>,
    opts: Seq<Seq<char>>,
) -> Seq<PoolInfoV> {
    built_from(pools, stats, opts, 0)
}

/// From the middle of a pass, with the pools before `i` already collected,
/// the remaining per-pool events finish the aggregate: what was collected,
/// then one record per remaining pool.
proof fn lemma_pool_loop(
    cluster: ClusterStat,
    pools: Seq<Seq<char>>,
    stats: Seq<PoolStat>,
    opts: Seq<Seq<char>>,
    i: int,
    collected: Seq<PoolInfoV>,
)
    requires
        stats.len() == pools.len(),
        opts.len() == pools.len(),
        0 <= i < pools.len(),
        forall|j: int| i <= j < pools.len() ==> (#[trigger] pool_size_of(opts[j])) is Some,
    ensures
        run_from(
            QueryStateV::StattingPool { cluster, pools, idx: i, collected },
            pool_events(stats, opts, i),
        ) == QueryRun::Finished(
            UsageInfoV {
                cluster_usage: cluster,
                pool_usage: collected + built_from(pools, stats, opts, i),
            },
        ),
    decreases pools.len() - i,
{
    let st0 = QueryStateV::StattingPool { cluster, pools, idx: i, collected };
    let events = pool_events(stats, opts, i);
    let tail = pool_events(stats, opts, i + 1);
    assert(events == seq![
        QueryEventV::PoolStats(stats[i]),
        QueryEventV::PoolSizeOption(opts[i]),
    ] + tail);
    let st1 = QueryStateV::FetchingSize { cluster, pools, idx: i, collected, stats: stats[i] };
    assert(spec_step(st0, events[0]) == QueryOutcomeV::Pending(
        st1,
        QueryActionV::GetSizeOption(pools[i]),
    ));
    let rest1 = events.drop_first();
    assert(rest1 =~= seq![QueryEventV::PoolSizeOption(opts[i])] + tail);
    assert(run_from(st0, events) == run_from(st1, rest1));
    let n = pool_size_of(opts[i])->Some_0;
    let done = collected.push(PoolInfoV { name: pools[i], usage: stats[i], pool_size: n });
    if i + 1 == pools.len() {
        assert(spec_step(st1, rest1[0]) == QueryOutcomeV::Finished(
            UsageInfoV { cluster_usage: cluster, pool_usage: done },
        ));
        assert(done =~= collected + built_from(pools, stats, opts, i));
    } else {
        let st2 = QueryStateV::StattingPool { cluster, pools, idx: i + 1, collected: done };
        assert(spec_step(st1, rest1[0]) == QueryOutcomeV::Pending(
            st2,
            QueryActionV::StatPool(pools[i + 1]),
        ));
        let rest2 = rest1.drop_first();
        assert(rest2 =~= tail);
        assert(run_from(st1, rest1) == run_from(st2, rest2));
        lemma_pool_loop(cluster, pools, stats, opts, i + 1, done);
        assert(done + built_from(pools, stats, opts, i + 1) =~= collected + built_from(
            pools,
            stats,
            opts,
            i,
        ));
    }
}

/// Aggregate construction: against a cluster whose per-pool calls all
/// succeed, a full query pass finishes with the single cluster-wide stat as
/// its cluster field and exactly one record per listed pool, in listed
/// order, each carrying that pool's own statistics and its own replication
/// factor.
pub proof fn lemma_aggregate_construction(
    cluster: ClusterStat,
    pools: Seq<Seq<char>>,
    stats: Seq<PoolStat>,
    opts: Seq<Seq<char>>,
)
    requires
        stats.len() == pools.len(),
        opts.len() == pools.len(),
        forall|j: int| 0 <= j < pools.len() ==> (#[trigger] pool_size_of(opts[j])) is Some,
    ensures
        run_from(QueryStateV::Connecting, query_events(cluster, pools, stats, opts))
            == QueryRun::Finished(
            UsageInfoV { cluster_usage: cluster, pool_usage: built_pools(pools, stats, opts) },
        ),
        built_pools(pools, stats, opts).len() == pools.len(),
        forall|j: int|
            0 <= j < pools.len() ==> {
                let p = #[trigger] built_pools(pools, stats, opts)[j];
                p.name == pools[j] && p.usage == stats[j] && pool_size_of(opts[j]) == Some(
                    p.pool_size,
                )
            },
{
    let events = query_events(cluster, pools, stats, opts);
    let tail = pool_events(stats, opts, 0);
    assert(spec_step(QueryStateV::Connecting, events[0]) == QueryOutcomeV::Pending(
        QueryStateV::StattingCluster,
        QueryActionV::StatCluster,
    ));
    let rest1 = events.drop_first();
    assert(rest1 =~= seq![
        QueryEventV::ClusterStats(cluster),
        QueryEventV::PoolList(pools),
    ] + tail);
    assert(run_from(QueryStateV::Connecting, events) == run_from(
        QueryStateV::StattingCluster,
        rest1,
    ));
    assert(spec_step(QueryStateV::StattingCluster, rest1[0]) == QueryOutcomeV::Pending(
        QueryStateV::ListingPools { cluster },
        QueryActionV::ListPools,
    ));
    let rest2 = rest1.drop_first();
    assert(rest2 =~= seq![QueryEventV::PoolList(pools)] + tail);
    assert(run_from(QueryStateV::StattingCluster, rest1) == run_from(
        QueryStateV::ListingPools { cluster },
        rest2,
    ));
    if pools.len() == 0 {
        assert(spec_step(QueryStateV::ListingPools { cluster }, rest2[0])
            == QueryOutcomeV::Finished(
            UsageInfoV { cluster_usage: cluster, pool_usage: Seq::empty() },
        ));
        assert(built_pools(pools, stats, opts) =~= Seq::<PoolInfoV>::empty());
    } else {
        let st = QueryStateV::StattingPool { cluster, pools, idx: 0, collected: Seq::empty() };
        assert(spec_step(QueryStateV::ListingPools { cluster }, rest2[0])
            == QueryOutcomeV::Pending(st, QueryActionV::StatPool(pools[0])));
        let rest3 = rest2.drop_first();
        assert(rest3 =~= tail);
        assert(run_from(QueryStateV::ListingPools { cluster }, rest2) == run_from(st, rest3));
        lemma_pool_loop(cluster, pools, stats, opts, 0, Seq::empty());
        assert(Seq::empty() + built_from(pools, stats, opts, 0) =~= built_pools(
            pools,
            stats,
            opts,
        ));
    }
}

/// Failure propagation: a failed call ends the query with that very error,
/// whatever the machine's state and whatever events would have followed; no
/// partial aggregate is returned.
pub proof fn lemma_failure_propagation(st: QueryStateV, e: Seq<char>, rest: Seq<QueryEventV>)
    ensures
        run_from(st, seq![QueryEventV::Failed(e)] + rest) == QueryRun::Failed(e),
{
    let events = seq![QueryEventV::Failed(e)] + rest;
    assert(events[0] == QueryEventV::Failed(e));
}

/// Failure propagation for the one locally detected error: a size option
/// that does not end in an unsigned integer token ends the query with the
/// parse error, whatever would have followed.
pub proof fn lemma_size_parse_failure(
    cluster: ClusterStat,
    pools: Seq<Seq<char>>,
    idx: int,
    collected: Seq<PoolInfoV>,
    stats: PoolStat,
    opt: Seq<char>,
    rest: Seq<QueryEventV>,
)
    requires
        0 <= idx < pools.len(),
        pool_size_of(opt) is None,
    ensures
        run_from(
            QueryStateV::FetchingSize { cluster, pools, idx, collected, stats },
            seq![QueryEventV::PoolSizeOption(opt)] + rest,
        ) == QueryRun::Failed(parse_error_of(opt)),
{
    let events = seq![QueryEventV::PoolSizeOption(opt)] + rest;
    assert(events[0] == QueryEventV::PoolSizeOption(opt));
}

/// Idempotence: the outcome of a query is a function of the events observed
/// alone, so two queries that observe an unchanged cluster (equal event
/// sequences) return structurally equal results.
pub proof fn lemma_idempotent(events1: Seq<QueryEventV>, events2: Seq<QueryEventV>)
    requires
        events1 == events2,
    ensures
        run_from(QueryStateV::Connecting, events1) == run_from(QueryStateV::Connecting, events2),
{
}

/// Begin a usage query: the machine first asks for a session.
pub fn start() -> (r: (QueryState, QueryAction))
    ensures
        r.0@ == QueryStateV::Connecting,
        r.1@ == QueryActionV::OpenSession,
{
    (QueryState::Connecting, QueryAction::OpenSession)
}

/// The error string for an event that does not answer the pending action.
fn protocol_error_string() -> (r: String)
    ensures
        r@ == protocol_error(),
{
    ("unexpected event for the pending query action").to_owned()
}

/// Advance the query by the event the last action produced.
pub fn step(state: QueryState, event: QueryEvent) -> (r: QueryOutcome)
    ensures
        r@ == spec_step(state@, event@),
{
    let ghost stv = state@;
    let ghost evv = event@;
    let r = match (state, event) {
        (_, QueryEvent::Failed(e)) => QueryOutcome::Failed(e),
        (QueryState::Connecting, QueryEvent::SessionOpened) => {
            QueryOutcome::Pending(QueryState::StattingCluster, QueryAction::StatCluster)
        },
        (QueryState::StattingCluster, QueryEvent::ClusterStats(c)) => {
            QueryOutcome::Pending(
                QueryState::ListingPools { cluster: c },
                QueryAction::ListPools,
            )
        },
        (QueryState::ListingPools { cluster }, QueryEvent::PoolList(pools)) => {
            if pools.len() == 0 {
                QueryOutcome::Finished(UsageInfo { cluster_usage: cluster, pool_usage: Vec::new() })
            } else {
                let first = pools[0].clone();
                QueryOutcome::Pending(
                    QueryState::StattingPool { cluster, pools, idx: 0, collected: Vec::new() },
                    QueryAction::StatPool(first),
                )
            }
        },
        (QueryState::StattingPool { cluster, pools, idx, collected }, QueryEvent::PoolStats(s)) => {
            if idx < pools.len() {
                let name = pools[idx].clone();
                QueryOutcome::Pending(
                    QueryState::FetchingSize { cluster, pools, idx, collected, stats: s },
                    QueryAction::GetSizeOption(name),
                )
            } else {
                QueryOutcome::Failed(protocol_error_string())
            }
        },
        (
            QueryState::FetchingSize { cluster, pools, idx, collected, stats },
            QueryEvent::PoolSizeOption(opt),
        ) => {
            if idx < pools.len() {
                match parse_pool_size(opt.as_str()) {
                    Err(e) => QueryOutcome::Failed(e),
                    Ok(n) => {
                        let mut collected = collected;
                        let name = pools[idx].clone();
                        collected.push(PoolInfo { name, usage: stats, pool_size: n });
                        if idx + 1 == pools.len() {
                            QueryOutcome::Finished(
                                UsageInfo { cluster_usage: cluster, pool_usage: collected },
                            )
                        } else {
                            let next = pools[idx + 1].clone();
                            QueryOutcome::Pending(
                                QueryState::StattingPool {
                                    cluster,
                                    pools,
                                    idx: idx + 1,
                                    collected,
                                },
                                QueryAction::StatPool(next),
                            )
                        }
                    },
                }
            } else {
                QueryOutcome::Failed(protocol_error_string())
            }
        },
        (_, _) => QueryOutcome::Failed(protocol_error_string()),
    };
    proof {
        assert(r@ =~~= spec_step(stv, evv));
    }
    r
}

} // verus!

