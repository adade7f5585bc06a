//! The closed set of logical query identifiers.
//!
//! Each identifier names one diagnostic query that the catalog can hand out
//! through direct lookup. The set is fixed: adding a query means adding a
//! variant here and a matching entry in the registry construction.

use vstd::prelude::*;

verus! {

/// A logical name for one diagnostic query in the catalog.
#[derive(Clone, Copy, PartialEq, Eq, Structural, Hash, Debug)]
pub enum Id {
    ComputerName,
    Mirroring,
    Jobs,
    AvailabilityGroups,
    InstanceProperties,
    UtcEntry,
    ClusterActiveNodes,
    ClusterNodes,
    IsClustered,
    DatabaseNames,
    Databases,
    Datafiles,
    Backup,
    SpaceUsed,
    CounterEntries,
    Connections,
    TransactionLogs,
    BadQuery,
    WaitingTasks,
    BlockingSessions,
    Counters,
    Clusters,
}

/// The identifiers in the fixed order in which the registry is populated.
pub open spec fn all_ids_seq() -> Seq<Id> {
    seq![
        Id::ComputerName,
        Id::Mirroring,
        Id::Jobs,
        Id::AvailabilityGroups,
        Id::InstanceProperties,
        Id::UtcEntry,
        Id::ClusterActiveNodes,
        Id::ClusterNodes,
        Id::IsClustered,
        Id::DatabaseNames,
        Id::Databases,
        Id::Datafiles,
        Id::Backup,
        Id::SpaceUsed,
        Id::CounterEntries,
        Id::Connections,
        Id::TransactionLogs,
        Id::BadQuery,
        Id::WaitingTasks,
        Id::BlockingSessions,
        Id::Counters,
        Id::Clusters,
    ]
}

/// Every identifier of the closed set occurs in the registry population order.
pub proof fn lemma_all_ids_complete(id: Id)
    ensures
        exists|j: int| 0 <= j < all_ids_seq().len() && all_ids_seq()[j] == id,
{
    match id {
        Id::ComputerName => { assert(all_ids_seq()[0] == id); }
        Id::Mirroring => { assert(all_ids_seq()[1] == id); }
        Id::Jobs => { assert(all_ids_seq()[2] == id); }
        Id::AvailabilityGroups => { assert(all_ids_seq()[3] == id); }
        Id::InstanceProperties => { assert(all_ids_seq()[4] == id); }
        Id::UtcEntry => { assert(all_ids_seq()[5] == id); }
        Id::ClusterActiveNodes => { assert(all_ids_seq()[6] == id); }
        Id::ClusterNodes => { assert(all_ids_seq()[7] == id); }
        Id::IsClustered => { assert(all_ids_seq()[8] == id); }
        Id::DatabaseNames => { assert(all_ids_seq()[9] == id); }
        Id::Databases => { assert(all_ids_seq()[10] == id); }
        Id::Datafiles => { assert(all_ids_seq()[11] == id); }
        Id::Backup => { assert(all_ids_seq()[12] == id); }
        Id::SpaceUsed => { assert(all_ids_seq()[13] == id); }
        Id::CounterEntries => { assert(all_ids_seq()[14] == id); }
        Id::Connections => { assert(all_ids_seq()[15] == id); }
        Id::TransactionLogs => { assert(all_ids_seq()[16] == id); }
        Id::BadQuery => { assert(all_ids_seq()[17] == id); }
        Id::WaitingTasks => { assert(all_ids_seq()[18] == id); }
        Id::BlockingSessions => { assert(all_ids_seq()[19] == id); }
        Id::Counters => { assert(all_ids_seq()[20] == id); }
        Id::Clusters => { assert(all_ids_seq()[21] == id); }
    }
}

/// The identifiers of the direct-lookup set, in registry population order.
pub fn all_ids() -> (r: Vec<Id>)
    ensures
        r@ == all_ids_seq(),
{
    let mut r: Vec<Id> = Vec::new();
    r.push(Id::ComputerName);
    r.push(Id::Mirroring);
    r.push(Id::Jobs);
    r.push(Id::AvailabilityGroups);
    r.push(Id::InstanceProperties);
    r.push(Id::UtcEntry);
    r.push(Id::ClusterActiveNodes);
    r.push(Id::ClusterNodes);
    r.push(Id::IsClustered);
    r.push(Id::DatabaseNames);
    r.push(Id::Databases);
    r.push(Id::Datafiles);
    r.push(Id::Backup);
    r.push(Id::SpaceUsed);
    r.push(Id::CounterEntries);
    r.push(Id::Connections);
    r.push(Id::TransactionLogs);
    r.push(Id::BadQuery);
    r.push(Id::WaitingTasks);
    r.push(Id::BlockingSessions);
    r.push(Id::Counters);
    r.push(Id::Clusters);
    proof {
        assert(r@ =~= all_ids_seq());
    }
    r
}

} // verus!
