use ceph_usage::query::{start, step, QueryAction, QueryEvent, QueryOutcome};
use ceph_usage::stats::{ClusterStat, PoolStat, UsageInfo};

fn cluster_stat() -> ClusterStat {
    ClusterStat { kb: 1000, kb_used: 400, kb_avail: 600, num_objects: 42 }
}

fn pool_stat(seed: u64) -> PoolStat {
    PoolStat {
        num_bytes: seed,
        num_kb: seed + 1,
        num_objects: seed + 2,
        num_object_clones: seed + 3,
        num_object_copies: seed + 4,
        num_objects_missing_on_primary: seed + 5,
        num_objects_unfound: seed + 6,
        num_objects_degraded: seed + 7,
        num_rd: seed + 8,
        num_rd_kb: seed + 9,
        num_wr: seed + 10,
        num_wr_kb: seed + 11,
    }
}

/// Feed the events to the machine in order, recording each requested action,
/// until it finishes or fails.
fn run(events: Vec<QueryEvent>) -> (Vec<QueryAction>, QueryOutcome) {
    let (mut state, first) = start();
    let mut actions = vec![first];
    for event in events {
        match step(state, event) {
            QueryOutcome::Pending(next, action) => {
                actions.push(action);
                state = next;
            }
            done => return (actions, done),
        }
    }
    panic!("the machine still waits for an event");
}

fn happy_events() -> Vec<QueryEvent> {
    vec![
        QueryEvent::SessionOpened,
        QueryEvent::ClusterStats(cluster_stat()),
        QueryEvent::PoolList(vec![String::from("A"), String::from("B")]),
        QueryEvent::PoolStats(pool_stat(100)),
        QueryEvent::PoolSizeOption(String::from("size: 3")),
        QueryEvent::PoolStats(pool_stat(200)),
        QueryEvent::PoolSizeOption(String::from("2")),
    ]
}

fn assert_usage_equal(a: &UsageInfo, b: &UsageInfo) {
    assert_eq!(a.cluster_usage, b.cluster_usage);
    assert_eq!(a.pool_usage.len(), b.pool_usage.len());
    for (x, y) in a.pool_usage.iter().zip(b.pool_usage.iter()) {
        assert_eq!(x.name, y.name);
        assert_eq!(x.usage, y.usage);
        assert_eq!(x.pool_size, y.pool_size);
    }
}

#[test]
fn two_pools_aggregate_in_listed_order() {
    let (actions, outcome) = run(happy_events());
    let usage = match outcome {
        QueryOutcome::Finished(u) => u,
        _ => panic!("expected the query to finish"),
    };
    assert_eq!(usage.cluster_usage, cluster_stat());
    assert_eq!(usage.pool_usage.len(), 2);
    assert_eq!(usage.pool_usage[0].name, "A");
    assert_eq!(usage.pool_usage[0].usage, pool_stat(100));
    assert_eq!(usage.pool_usage[0].pool_size, 3);
    assert_eq!(usage.pool_usage[1].name, "B");
    assert_eq!(usage.pool_usage[1].usage, pool_stat(200));
    assert_eq!(usage.pool_usage[1].pool_size, 2);

    let expected = vec![
        "OpenSession",
        "StatCluster",
        "ListPools",
        "StatPool(A)",
        "GetSizeOption(A)",
        "StatPool(B)",
        "GetSizeOption(B)",
    ];
    let seen: Vec<String> = actions
        .iter()
        .map(|a| match a {
            QueryAction::OpenSession => String::from("OpenSession"),
            QueryAction::StatCluster => String::from("StatCluster"),
            QueryAction::ListPools => String::from("ListPools"),
            QueryAction::StatPool(p) => format!("StatPool({})", p),
            QueryAction::GetSizeOption(p) => format!("GetSizeOption({})", p),
        })
        .collect();
    assert_eq!(seen, expected);
}

#[test]
fn no_pools_yields_an_empty_list() {
    let events = vec![
        QueryEvent::SessionOpened,
        QueryEvent::ClusterStats(cluster_stat()),
        QueryEvent::PoolList(vec![]),
    ];
    let (_, outcome) = run(events);
    match outcome {
        QueryOutcome::Finished(u) => {
            assert_eq!(u.cluster_usage, cluster_stat());
            assert!(u.pool_usage.is_empty());
        }
        _ => panic!("expected the query to finish"),
    }
}

#[test]
fn a_failed_pool_stat_aborts_with_that_error() {
    let events = vec![
        QueryEvent::SessionOpened,
        QueryEvent::ClusterStats(cluster_stat()),
        QueryEvent::PoolList(vec![String::from("A"), String::from("B")]),
        QueryEvent::PoolStats(pool_stat(100)),
        QueryEvent::PoolSizeOption(String::from("size: 3")),
        QueryEvent::Failed(String::from("pool B went away")),
    ];
    let (_, outcome) = run(events);
    match outcome {
        QueryOutcome::Failed(e) => assert_eq!(e, "pool B went away"),
        _ => panic!("expected the query to fail"),
    }
}

#[test]
fn a_failed_stat_on_the_first_pool_aborts_too() {
    let events = vec![
        QueryEvent::SessionOpened,
        QueryEvent::ClusterStats(cluster_stat()),
        QueryEvent::PoolList(vec![String::from("B"), String::from("A")]),
        QueryEvent::Failed(String::from("pool B went away")),
    ];
    let (_, outcome) = run(events);
    match outcome {
        QueryOutcome::Failed(e) => assert_eq!(e, "pool B went away"),
        _ => panic!("expected the query to fail"),
    }
}

#[test]
fn a_failed_connect_aborts_with_that_error() {
    let events = vec![QueryEvent::Failed(String::from("no monitors reachable"))];
    let (_, outcome) = run(events);
    match outcome {
        QueryOutcome::Failed(e) => assert_eq!(e, "no monitors reachable"),
        _ => panic!("expected the query to fail"),
    }
}

#[test]
fn a_bad_size_option_aborts_with_the_parse_error() {
    let events = vec![
        QueryEvent::SessionOpened,
        QueryEvent::ClusterStats(cluster_stat()),
        QueryEvent::PoolList(vec![String::from("A")]),
        QueryEvent::PoolStats(pool_stat(100)),
        QueryEvent::PoolSizeOption(String::from("size: three")),
    ];
    let (_, outcome) = run(events);
    match outcome {
        QueryOutcome::Failed(e) => assert_eq!(e, "invalid digit found in string"),
        _ => panic!("expected the query to fail"),
    }
}

#[test]
fn an_unexpected_event_is_refused() {
    let events = vec![QueryEvent::PoolStats(pool_stat(100))];
    let (_, outcome) = run(events);
    match outcome {
        QueryOutcome::Failed(e) => {
            assert_eq!(e, "unexpected event for the pending query action")
        }
        _ => panic!("expected the query to fail"),
    }
}

#[test]
fn equal_snapshots_give_structurally_equal_results() {
    let (_, first) = run(happy_events());
    let (_, second) = run(happy_events());
    match (first, second) {
        (QueryOutcome::Finished(a), QueryOutcome::Finished(b)) => assert_usage_equal(&a, &b),
        _ => panic!("expected both queries to finish"),
    }
}
