use query_catalog::bank::BAD_QUERY;
use query_catalog::bank::UTC_DATE_FIELD;
use query_catalog::catalog::_get_blocking_sessions_query;
use query_catalog::catalog::blocking_sessions_query;
use query_catalog::catalog::registry_enumeration_query;
use query_catalog::compose::append_clause;
use query_catalog::compose::concat_terminated;
use query_catalog::compose::replace_all;
use query_catalog::get_query;
use query_catalog::get_win_registry_instances_query;
use query_catalog::get_wow64_32_registry_instances_query;
use query_catalog::Catalog;
use query_catalog::Id;
use query_catalog::RegistryHive;

fn every_id() -> Vec<Id> {
    vec![
        Id::ComputerName,
        Id::Mirroring,
        Id::Jobs,
        Id::AvailabilityGroups,
        Id::InstanceProperties,
        Id::UtcEntry,
        Id::ClusterActiveNodes,
        Id::ClusterNodes,
        Id::IsClustered,
        Id::DatabaseNames,
        Id::Databases,
        Id::Datafiles,
        Id::Backup,
        Id::SpaceUsed,
        Id::CounterEntries,
        Id::Connections,
        Id::TransactionLogs,
        Id::BadQuery,
        Id::WaitingTasks,
        Id::BlockingSessions,
        Id::Counters,
        Id::Clusters,
    ]
}

#[test]
fn lookup_succeeds_and_is_nonempty_for_every_id() {
    for id in every_id() {
        let text = get_query(&id).unwrap();
        assert!(!text.is_empty());
    }
}

#[test]
fn lookup_is_idempotent() {
    for id in every_id() {
        let first = get_query(&id).unwrap();
        let second = get_query(&id).unwrap();
        assert_eq!(first, second);
    }
}

#[test]
fn catalog_lookup_matches_direct_derivation() {
    let catalog = Catalog::new();
    for id in every_id() {
        let from_catalog = catalog.lookup(&id).unwrap();
        let direct = get_query(&id).unwrap();
        assert_eq!(*from_catalog, direct);
    }
}

#[test]
fn wow64_query_is_native_with_hive_prefix_replaced() {
    let native = get_win_registry_instances_query();
    let wow64 = get_wow64_32_registry_instances_query();
    let expected = native.replace(
        r"SOFTWARE\Microsoft\",
        r"SOFTWARE\WOW6432Node\Microsoft\",
    );
    assert_eq!(wow64, expected);
    assert!(wow64.contains(r"SOFTWARE\WOW6432Node\Microsoft\"));
    assert!(!native.contains("WOW6432Node"));
    assert_ne!(wow64, native);
}

#[test]
fn registry_enumeration_query_selects_the_hive() {
    assert_eq!(
        registry_enumeration_query(RegistryHive::Native),
        get_win_registry_instances_query()
    );
    assert_eq!(
        registry_enumeration_query(RegistryHive::Wow64),
        get_wow64_32_registry_instances_query()
    );
}

#[test]
fn blocking_sessions_appends_the_filter_clause() {
    let waiting = get_query(&Id::WaitingTasks).unwrap();
    let blocking = get_query(&Id::BlockingSessions).unwrap();
    assert_eq!(blocking, format!("{} WHERE blocking_session_id <> 0 ", waiting));
    assert!(blocking.len() > waiting.len());
    assert_eq!(blocking, _get_blocking_sessions_query());
    assert_eq!(blocking, blocking_sessions_query());
}

#[test]
fn counters_batch_splits_into_its_sources() {
    let counters = get_query(&Id::Counters).unwrap();
    let utc = get_query(&Id::UtcEntry).unwrap();
    let entries = get_query(&Id::CounterEntries).unwrap();
    let fields: Vec<&str> = counters.split(';').collect();
    assert_eq!(fields, vec![utc.as_str(), entries.as_str(), ""]);
    assert_eq!(counters, format!("{};{};", utc, entries));
}

#[test]
fn clusters_batch_splits_into_its_sources() {
    let clusters = get_query(&Id::Clusters).unwrap();
    let nodes = get_query(&Id::ClusterNodes).unwrap();
    let active = get_query(&Id::ClusterActiveNodes).unwrap();
    let fields: Vec<&str> = clusters.split(';').collect();
    assert_eq!(fields, vec![nodes.as_str(), active.as_str(), ""]);
    assert_eq!(clusters, format!("{};{};", nodes, active));
}

#[test]
fn bad_query_is_served_verbatim() {
    let text = get_query(&Id::BadQuery).unwrap();
    assert_eq!(text, "SELEC name FROM sys.databases");
    assert_eq!(text, BAD_QUERY);
}

#[test]
fn utc_entry_names_the_utc_date_field() {
    let text = get_query(&Id::UtcEntry).unwrap();
    assert_eq!(text, "SELECT CONVERT(varchar, GETUTCDATE(), 20) as utc_date");
    assert!(text.ends_with(UTC_DATE_FIELD));
}

#[test]
fn replace_all_matches_standard_replacement() {
    let cases = [
        ("abcabc", "bc", "X"),
        ("aaa", "aa", "b"),
        ("no occurrence here", "zzz", "y"),
        ("SOFTWARE\\Microsoft\\ twice SOFTWARE\\Microsoft\\", "SOFTWARE\\Microsoft\\", "S\\"),
        ("", "a", "b"),
    ];
    for (base, from, to) in cases {
        assert_eq!(replace_all(base, from, to), base.replace(from, to));
    }
}

#[test]
fn replace_all_with_empty_pattern_leaves_text_unchanged() {
    assert_eq!(replace_all("abc", "", "x"), "abc");
}

#[test]
fn append_clause_concatenates() {
    assert_eq!(append_clause("SELECT 1", " WHERE x"), "SELECT 1 WHERE x");
    assert_eq!(append_clause("", ""), "");
}

#[test]
fn concat_terminated_joins_in_order() {
    let parts = vec!["SELECT 1", "SELECT 2"];
    assert_eq!(concat_terminated(&parts, ";"), "SELECT 1;SELECT 2;");
    let empty: Vec<&str> = vec![];
    assert_eq!(concat_terminated(&empty, ";"), "");
}
