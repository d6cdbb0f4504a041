//! Agent-side coordination: the periodic registration decision and the
//! operational status report.
//!
//! The surrounding process owns the timers, the endpoint and the service
//! lister; each tick it hands the lister's outcome to
//! [`registration_tick`], which alone decides what happens to the registry.

use vstd::prelude::*;
use crate::discovery::{service_views, DiscoveryManager};
use crate::error::Error;
use crate::registry::register_spec;
use crate::{ClusterId, ClusterInfo, ClusterInfoView, ServiceInfo};

verus! {

/// Read-only operational status of this cluster's agent.
pub struct ClusterStatusResponse {
    pub cluster_id: String,
    pub node_id: String,
    pub node_addr: String,
    pub services: Vec<ServiceInfo>,
    pub peer_clusters: Vec<String>,
}

/// The registry entry a successful tick publishes for the local cluster.
pub open spec fn local_entry_model(
    id: Seq<char>,
    node_id: Seq<char>,
    relay_url: Option<Seq<char>>,
    direct_addresses: Seq<Seq<char>>,
    services: Seq<crate::ServiceInfoView>,
) -> ClusterInfoView {
    ClusterInfoView { id, node_id, relay_url, direct_addresses, services }
}

/// Assembles the local cluster's registry entry from the current node
/// reachability information and the freshly discovered service list.
pub fn build_cluster_info(
    id: ClusterId,
    node_id: String,
    relay_url: Option<String>,
    direct_addresses: Vec<String>,
    services: Vec<ServiceInfo>,
) -> (r: ClusterInfo)
    ensures
        r@ == local_entry_model(
            id.id_seq(),
            node_id@,
            match relay_url {
                Some(u) => Some(u@),
                None => None,
            },
            direct_addresses.deep_view(),
            service_views(services@),
        ),
{
    let r = ClusterInfo { id, node_id, relay_url, direct_addresses, services };
    proof {
        assert(r@.services =~= service_views(r.services@));
    }
    r
}

/// One registration tick of the discovery coordinator.
///
/// The caller has already asked the service lister for the current local
/// service set and hands in the outcome. On success the local cluster's
/// entry is replaced whole with a fresh one built from the given node
/// reachability information. On a lister failure nothing changes: the
/// previous entry for the local cluster stays as it was, the failure is
/// reported and never fatal.
pub fn registration_tick(
    discovery: &mut DiscoveryManager,
    node_id: String,
    relay_url: Option<String>,
    direct_addresses: Vec<String>,
    services_result: Result<Vec<ServiceInfo>, Error>,
) -> (r: Result<(), Error>)
    requires
        old(discovery).wf(),
    ensures
        final(discovery).wf(),
        final(discovery).id_view() == old(discovery).id_view(),
        final(discovery).spec_kube_available() == old(discovery).spec_kube_available(),
        services_result matches Ok(services) ==> r is Ok && final(discovery).clusters_view()
            =~= register_spec(
            old(discovery).clusters_view(),
            local_entry_model(
                old(discovery).id_view(),
                node_id@,
                match relay_url {
                    Some(u) => Some(u@),
                    None => None,
                },
                direct_addresses.deep_view(),
                service_views(services@),
            ),
        ),
        services_result matches Err(e) ==> r == Result::<(), Error>::Err(e)
            && final(discovery).clusters_view() == old(discovery).clusters_view(),
{
    match services_result {
        Ok(services) => {
            let info = build_cluster_info(
                discovery.cluster_id(),
                node_id,
                relay_url,
                direct_addresses,
                services,
            );
            match discovery.register_cluster(info) {
                Ok(()) => Ok(()),
                Err(e) => Err(e),
            }
        }
        Err(e) => Err(e),
    }
}

/// The identities of all known clusters other than the local one, in
/// registry order.
pub open spec fn peer_ids(entries: Seq<ClusterInfoView>, self_id: Seq<char>) -> Seq<Seq<char>>
    decreases entries.len(),
{
    if entries.len() == 0 {
        Seq::empty()
    } else {
        let rest = peer_ids(entries.drop_last(), self_id);
        if entries.last().id == self_id {
            rest
        } else {
            rest.push(entries.last().id)
        }
    }
}

/// The operational status of this agent: local identity, node identity and
/// address, the current local service list, and the known peer clusters.
/// The node address is reported as pending until the endpoint has one.
pub fn cluster_status(discovery: &DiscoveryManager, node_id: &String) -> (r: ClusterStatusResponse)
    ensures
        r.cluster_id@ == discovery.id_view(),
        r.node_id@ == node_id@,
        r.node_addr@ == "pending"@,
        service_views(r.services@) =~= crate::discovery::local_services_model(
            discovery.spec_kube_available(),
        ),
        r.peer_clusters.deep_view() =~= peer_ids(discovery.clusters_view(), discovery.id_view()),
{
    let services = match discovery.discover_local_services(None) {
        Ok(s) => s,
        Err(_) => Vec::new(),
    };
    let clusters = discovery.list_clusters();
    let local = discovery.cluster_id();
    let ghost entries = discovery.clusters_view();
    let mut peer_clusters: Vec<String> = Vec::new();
    let n = clusters.len();
    proof {
        assert(entries.take(0) =~= Seq::<ClusterInfoView>::empty());
    }
    let mut i: usize = 0;
    while i < n
        invariant
            n == clusters@.len(),
            crate::registry::views_of(clusters@) =~= entries,
            i <= n,
            local.id_seq() == discovery.id_view(),
            peer_clusters.deep_view() =~= peer_ids(entries.take(i as int), discovery.id_view()),
        decreases n - i,
    {
        let ghost prefix = entries.take(i + 1);
        proof {
            assert(prefix.drop_last() =~= entries.take(i as int));
            assert(prefix.last() == entries[i as int]);
        }
        if !clusters[i].id.same_as(&local) {
            peer_clusters.push(clusters[i].id.to_text());
        }
        i += 1;
        proof {
            assert(peer_clusters.deep_view() =~= peer_ids(entries.take(i as int), discovery.id_view()));
        }
    }
    proof {
        assert(entries.take(n as int) =~= entries);
    }
    ClusterStatusResponse {
        cluster_id: local.to_text(),
        node_id: node_id.clone(),
        node_addr: String::from_str("pending"),
        services,
        peer_clusters,
    }
}

} // verus!
