//! The registry and the catalog API.
//!
//! `query_text` is the spec-level model of the whole catalog: the exact text
//! owed for each identifier. The executable side mirrors it twice — once as
//! `get_query`/`build_query`, which derive an entry on demand, and once as
//! `Catalog`, a registry materialized in one pass whose well-formedness ties
//! every stored entry to the model. Lookups therefore return byte-identical
//! text however often and through whichever path they are made.

use vstd::prelude::*;
use vstd::string::StringExecFns;

use crate::bank::AVAILABILITY_GROUP;
use crate::bank::BACKUP;
use crate::bank::BAD_QUERY;
use crate::bank::BATCH_SEPARATOR;
use crate::bank::BLOCKING_SESSIONS_FILTER;
use crate::bank::CLUSTER_ACTIVE_NODES;
use crate::bank::CLUSTER_NODES;
use crate::bank::COMPUTER_NAME;
use crate::bank::CONNECTIONS;
use crate::bank::COUNTERS_ENTRIES;
use crate::bank::DATABASES;
use crate::bank::DATABASE_NAMES;
use crate::bank::DATAFILES;
use crate::bank::INSTANCE_PROPERTIES;
use crate::bank::IS_CLUSTERED;
use crate::bank::JOBS;
use crate::bank::MIRRORING;
use crate::bank::NATIVE_HIVE_PREFIX;
use crate::bank::SPACE_USED;
use crate::bank::TRANSACTION_LOGS;
use crate::bank::UTC_ENTRY;
use crate::bank::WAITING_TASKS;
use crate::bank::WINDOWS_REGISTRY_INSTANCES_BASE;
use crate::bank::WOW64_32_HIVE_PREFIX;
use crate::bank::lemma_bank_templates_nonempty;
use crate::bank::lemma_batch_sources_separator_free;
use crate::compose::append_clause;
use crate::compose::concat_terminated;
use crate::compose::joined;
use crate::compose::lemma_split_joined;
use crate::compose::replace_all;
use crate::compose::replaced;
use crate::compose::split_on;
use crate::ids::Id;
use crate::ids::all_ids;
use crate::ids::all_ids_seq;
use crate::ids::lemma_all_ids_complete;

verus! {

/// Which registry hive the enumeration script shall address.
#[derive(Clone, Copy, PartialEq, Eq, Structural, Debug)]
pub enum RegistryHive {
    Native,
    Wow64,
}

/// The one error the catalog can surface: a direct lookup for an identifier
/// without a registry entry. Under the construction discipline proved here it
/// never occurs; it exists as a defensive contract for callers.
#[derive(Clone, Copy, PartialEq, Eq, Structural, Debug)]
pub enum QueryError {
    NotFound(Id),
}

/// Text of the derived blocking-sessions entry: the waiting-tasks base with
/// the blocking filter clause appended verbatim.
pub open spec fn blocking_sessions_text() -> Seq<char> {
    WAITING_TASKS@ + BLOCKING_SESSIONS_FILTER@
}

/// Text of the derived counters batch: UTC timestamp entry and counter
/// entries, each terminated by the batch separator.
pub open spec fn counters_text() -> Seq<char> {
    joined(seq![UTC_ENTRY@, COUNTERS_ENTRIES@], ';')
}

/// Text of the derived clusters batch: cluster nodes and active node, each
/// terminated by the batch separator.
pub open spec fn clusters_text() -> Seq<char> {
    joined(seq![CLUSTER_NODES@, CLUSTER_ACTIVE_NODES@], ';')
}

/// Text of the registry enumeration script for the 32-bit-on-64-bit hive:
/// the native base with the hive prefix replaced throughout.
pub open spec fn wow64_registry_text() -> Seq<char> {
    replaced(WINDOWS_REGISTRY_INSTANCES_BASE@, NATIVE_HIVE_PREFIX@, WOW64_32_HIVE_PREFIX@)
}

/// Text of the registry enumeration script for either hive.
pub open spec fn registry_enumeration_text(hive: RegistryHive) -> Seq<char> {
    match hive {
        RegistryHive::Native => WINDOWS_REGISTRY_INSTANCES_BASE@,
        RegistryHive::Wow64 => wow64_registry_text(),
    }
}

/// The model of the catalog: the exact query text owed for each identifier
/// of the direct-lookup set.
pub open spec fn query_text(id: Id) -> Seq<char> {
    match id {
        Id::ComputerName => COMPUTER_NAME@,
        Id::Mirroring => MIRRORING@,
        Id::Jobs => JOBS@,
        Id::AvailabilityGroups => AVAILABILITY_GROUP@,
        Id::InstanceProperties => INSTANCE_PROPERTIES@,
        Id::UtcEntry => UTC_ENTRY@,
        Id::ClusterActiveNodes => CLUSTER_ACTIVE_NODES@,
        Id::ClusterNodes => CLUSTER_NODES@,
        Id::IsClustered => IS_CLUSTERED@,
        Id::DatabaseNames => DATABASE_NAMES@,
        Id::Databases => DATABASES@,
        Id::Datafiles => DATAFILES@,
        Id::Backup => BACKUP@,
        Id::SpaceUsed => SPACE_USED@,
        Id::CounterEntries => COUNTERS_ENTRIES@,
        Id::Connections => CONNECTIONS@,
        Id::TransactionLogs => TRANSACTION_LOGS@,
        Id::BadQuery => BAD_QUERY@,
        Id::WaitingTasks => WAITING_TASKS@,
        Id::BlockingSessions => blocking_sessions_text(),
        Id::Counters => counters_text(),
        Id::Clusters => clusters_text(),
    }
}

/// Derive the query text for one identifier: verbatim entries come straight
/// from the bank, derived entries through the compositor.
pub fn build_query(id: &Id) -> (r: String)
    ensures
        r@ == query_text(*id),
{
    match id {
        Id::ComputerName => String::from_str(COMPUTER_NAME),
        Id::Mirroring => String::from_str(MIRRORING),
        Id::Jobs => String::from_str(JOBS),
        Id::AvailabilityGroups => String::from_str(AVAILABILITY_GROUP),
        Id::InstanceProperties => String::from_str(INSTANCE_PROPERTIES),
        Id::UtcEntry => String::from_str(UTC_ENTRY),
        Id::ClusterActiveNodes => String::from_str(CLUSTER_ACTIVE_NODES),
        Id::ClusterNodes => String::from_str(CLUSTER_NODES),
        Id::IsClustered => String::from_str(IS_CLUSTERED),
        Id::DatabaseNames => String::from_str(DATABASE_NAMES),
        Id::Databases => String::from_str(DATABASES),
        Id::Datafiles => String::from_str(DATAFILES),
        Id::Backup => String::from_str(BACKUP),
        Id::SpaceUsed => String::from_str(SPACE_USED),
        Id::CounterEntries => String::from_str(COUNTERS_ENTRIES),
        Id::Connections => String::from_str(CONNECTIONS),
        Id::TransactionLogs => String::from_str(TRANSACTION_LOGS),
        Id::BadQuery => String::from_str(BAD_QUERY),
        Id::WaitingTasks => String::from_str(WAITING_TASKS),
        Id::BlockingSessions => append_clause(WAITING_TASKS, BLOCKING_SESSIONS_FILTER),
        Id::Counters => concat_batch(UTC_ENTRY, COUNTERS_ENTRIES),
        Id::Clusters => concat_batch(CLUSTER_NODES, CLUSTER_ACTIVE_NODES),
    }
}

/// Join two statements into one separator-terminated batch.
fn concat_batch(first: &str, second: &str) -> (r: String)
    ensures
        r@ == joined(seq![first@, second@], ';'),
{
    let mut parts: Vec<&str> = Vec::new();
    parts.push(first);
    parts.push(second);
    proof {
        reveal_strlit(";");
        assert(parts@.map_values(|p: &str| p@) =~= seq![first@, second@]);
    }
    concat_terminated(&parts, BATCH_SEPARATOR)
}

/// Direct lookup: the query text registered for `query_id`. Succeeds for
/// every identifier of the closed set.
pub fn get_query(query_id: &Id) -> (r: Result<String, QueryError>)
    ensures
        r matches Ok(q) && q@ == query_text(*query_id),
{
    Ok(build_query(query_id))
}

/// The registry enumeration script for the native hive.
pub fn get_win_registry_instances_query() -> (r: String)
    ensures
        r@ == WINDOWS_REGISTRY_INSTANCES_BASE@,
{
    String::from_str(WINDOWS_REGISTRY_INSTANCES_BASE)
}

/// The registry enumeration script for the 32-bit-on-64-bit hive: the native
/// base with every occurrence of the hive prefix replaced.
pub fn get_wow64_32_registry_instances_query() -> (r: String)
    ensures
        r@ == wow64_registry_text(),
{
    replace_all(WINDOWS_REGISTRY_INSTANCES_BASE, NATIVE_HIVE_PREFIX, WOW64_32_HIVE_PREFIX)
}

/// The waiting-tasks base narrowed to sessions that block another session.
pub fn _get_blocking_sessions_query() -> (r: String)
    ensures
        r@ == blocking_sessions_text(),
{
    append_clause(WAITING_TASKS, BLOCKING_SESSIONS_FILTER)
}

/// The registry enumeration script for the requested hive; never fails.
pub fn registry_enumeration_query(hive: RegistryHive) -> (r: String)
    ensures
        r@ == registry_enumeration_text(hive),
{
    match hive {
        RegistryHive::Native => get_win_registry_instances_query(),
        RegistryHive::Wow64 => get_wow64_32_registry_instances_query(),
    }
}

/// The blocking-sessions query; never fails, and strictly longer than the
/// waiting-tasks base it narrows.
pub fn blocking_sessions_query() -> (r: String)
    ensures
        r@ == blocking_sessions_text(),
        r@.len() > WAITING_TASKS@.len(),
{
    proof {
        lemma_bank_templates_nonempty();
    }
    append_clause(WAITING_TASKS, BLOCKING_SESSIONS_FILTER)
}

/// The registry: one entry per identifier of the direct-lookup set, built in
/// one pass and immutable afterwards.
pub struct Catalog {
    entries: Vec<(Id, String)>,
}

impl Catalog {
    /// Every identifier has exactly one entry, in population order, holding
    /// exactly the text the model owes it. As a type invariant this holds of
    /// every `Catalog` value that can exist.
    #[verifier::type_invariant]
    spec fn wf(self) -> bool {
        &&& self.entries@.len() == all_ids_seq().len()
        &&& forall|k: int|
            0 <= k < self.entries@.len() ==> (#[trigger] self.entries@[k]).0 == all_ids_seq()[k]
                && self.entries@[k].1@ == query_text(all_ids_seq()[k])
    }

    /// Build the registry: verbatim entries first-class from the bank,
    /// derived entries through the compositor, each computed exactly once.
    pub fn new() -> (r: Catalog) {
        let ids = all_ids();
        let mut entries: Vec<(Id, String)> = Vec::new();
        let mut i: usize = 0;
        while i < ids.len()
            invariant
                ids@ == all_ids_seq(),
                i <= ids@.len(),
                entries@.len() == i,
                forall|k: int|
                    0 <= k < i ==> (#[trigger] entries@[k]).0 == all_ids_seq()[k]
                        && entries@[k].1@ == query_text(all_ids_seq()[k]),
            decreases ids@.len() - i,
        {
            let id = ids[i];
            let q = build_query(&id);
            entries.push((id, q));
            i += 1;
        }
        Catalog { entries }
    }

    /// Look `id` up in the finished registry. Succeeds for every identifier
    /// of the closed set and returns exactly the text the model owes it.
    pub fn lookup<'a>(&'a self, id: &Id) -> (r: Result<&'a String, QueryError>)
        ensures
            r matches Ok(q) && q@ == query_text(*id),
    {
        proof {
            use_type_invariant(&*self);
        }
        let n: usize = self.entries.len();
        let mut i: usize = 0;
        while i < n
            invariant
                self.wf(),
                n == self.entries@.len(),
                i <= n,
                forall|k: int| 0 <= k < i ==> (#[trigger] self.entries@[k]).0 != *id,
            decreases n - i,
        {
            let entry = &self.entries[i];
            if entry.0 == *id {
                return Ok(&entry.1);
            }
            i += 1;
        }
        // Defensive only: the scan cannot miss, since every identifier has
        // an entry in a well-formed registry.
        proof {
            lemma_all_ids_complete(*id);
            let j = choose|j: int| 0 <= j < all_ids_seq().len() && all_ids_seq()[j] == *id;
            assert(self.entries@[j].0 == *id);
            assert(false);
        }
        Err(QueryError::NotFound(*id))
    }
}

/// Every identifier of the direct-lookup set is owed non-empty query text.
pub proof fn lemma_query_text_nonempty(id: Id)
    ensures
        query_text(id).len() > 0,
{
    lemma_bank_templates_nonempty();
    assert(blocking_sessions_text().len() > 0);
    assert(counters_text().len() > 0);
    assert(clusters_text().len() > 0);
}

/// Lookup is idempotent: any two results that meet the lookup contract for
/// the same identifier are byte-identical, since both equal the model text.
pub proof fn lemma_lookup_deterministic(first: Seq<char>, second: Seq<char>, id: Id)
    requires
        first == query_text(id),
        second == query_text(id),
    ensures
        first == second,
{
}

/// The alternate-hive enumeration script equals the native one with the
/// fixed hive prefix substring replaced, and is otherwise untouched.
pub proof fn lemma_wow64_hive_replacement()
    ensures
        registry_enumeration_text(RegistryHive::Wow64) == replaced(
            registry_enumeration_text(RegistryHive::Native),
            NATIVE_HIVE_PREFIX@,
            WOW64_32_HIVE_PREFIX@,
        ),
{
}

/// The blocking-sessions text is the waiting-tasks base with the filter
/// clause appended verbatim, and is strictly longer than the base.
pub proof fn lemma_blocking_sessions_appends_filter()
    ensures
        blocking_sessions_text() == WAITING_TASKS@ + BLOCKING_SESSIONS_FILTER@,
        blocking_sessions_text().len() > WAITING_TASKS@.len(),
{
    lemma_bank_templates_nonempty();
}

/// The counters batch splits on the batch separator into exactly its two
/// source queries, in order, followed by the empty trailing field.
pub proof fn lemma_counters_batch_splits()
    ensures
        split_on(counters_text(), ';') == seq![
            UTC_ENTRY@,
            COUNTERS_ENTRIES@,
            Seq::<char>::empty(),
        ],
{
    lemma_batch_sources_separator_free();
    let parts = seq![UTC_ENTRY@, COUNTERS_ENTRIES@];
    assert(forall|k: int| 0 <= k < parts.len() ==> !(#[trigger] parts[k]).contains(';')) by {
        assert(parts[0] == UTC_ENTRY@);
        assert(parts[1] == COUNTERS_ENTRIES@);
    }
    lemma_split_joined(parts, ';');
    assert(parts.push(Seq::<char>::empty()) =~~= seq![
        UTC_ENTRY@,
        COUNTERS_ENTRIES@,
        Seq::<char>::empty(),
    ]);
}

/// The clusters batch splits on the batch separator into exactly its two
/// source queries, in order, followed by the empty trailing field.
pub proof fn lemma_clusters_batch_splits()
    ensures
        split_on(clusters_text(), ';') == seq![
            CLUSTER_NODES@,
            CLUSTER_ACTIVE_NODES@,
            Seq::<char>::empty(),
        ],
{
    lemma_batch_sources_separator_free();
    let parts = seq![CLUSTER_NODES@, CLUSTER_ACTIVE_NODES@];
    assert(forall|k: int| 0 <= k < parts.len() ==> !(#[trigger] parts[k]).contains(';')) by {
        assert(parts[0] == CLUSTER_NODES@);
        assert(parts[1] == CLUSTER_ACTIVE_NODES@);
    }
    lemma_split_joined(parts, ';');
    assert(parts.push(Seq::<char>::empty()) =~~= seq![
        CLUSTER_NODES@,
        CLUSTER_ACTIVE_NODES@,
        Seq::<char>::empty(),
    ]);
}

} // verus!
