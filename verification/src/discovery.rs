//! Cross-cluster service discovery: the manager owning the cluster registry
//! and the local service enumeration.
//!
//! Reaching the cluster API is the surrounding process's business; the
//! manager only records whether that backend is available and derives the
//! local service set accordingly.

use vstd::prelude::*;
use crate::error::Error;
use crate::registry::{ids_unique, find_service_spec, lookup_spec, register_spec, without_id,
    ClusterRegistry};
use crate::{ClusterId, ClusterInfo, ClusterInfoView, ServiceInfo, ServiceInfoView};

verus! {

/// Endpoint information for a cluster: how its peer node can be reached.
pub struct EndpointInfo {
    pub relay_url: Option<String>,
    pub direct_addresses: Vec<String>,
}

/// The unit of registration exchanged between clusters' coordinators: who the
/// cluster is, how to reach it, and what it advertises.
pub struct ClusterRegistration {
    pub cluster_id: ClusterId,
    pub node_id: String,
    pub endpoint_info: EndpointInfo,
    pub services: Vec<ServiceInfo>,
}

/// The views of the services a vector holds, in order.
pub open spec fn service_views(v: Seq<ServiceInfo>) -> Seq<ServiceInfoView> {
    Seq::new(v.len(), |i: int| v[i]@)
}

/// The local service set the manager reports, by backend availability: the
/// cluster API service when the backend is reachable, a standalone
/// placeholder service otherwise.
pub open spec fn local_services_model(kube_available: bool) -> Seq<ServiceInfoView> {
    if kube_available {
        seq![
            ServiceInfoView {
                name: "kubernetes"@,
                namespace: "default"@,
                port: 443,
                protocol: "TCP"@,
            },
        ]
    } else {
        seq![
            ServiceInfoView {
                name: "standalone-service"@,
                namespace: "default"@,
                port: 8080,
                protocol: "TCP"@,
            },
        ]
    }
}

/// Cross-cluster service discovery manager: the local cluster's identity,
/// whether the cluster API backend is reachable, and the registry of known
/// clusters.
pub struct DiscoveryManager {
    cluster_id: ClusterId,
    kube_available: bool,
    clusters: ClusterRegistry,
}

impl DiscoveryManager {
    /// The local cluster's identity.
    pub closed spec fn id_view(&self) -> Seq<char> {
        self.cluster_id.id_seq()
    }

    /// Whether the cluster API backend was reachable at construction.
    pub closed spec fn spec_kube_available(&self) -> bool {
        self.kube_available
    }

    /// The registry's entries, most recent registration last.
    pub closed spec fn clusters_view(&self) -> Seq<ClusterInfoView> {
        self.clusters@
    }

    pub open spec fn wf(&self) -> bool {
        ids_unique(self.clusters_view())
    }

    /// A new manager with an empty registry. Whether the cluster API is
    /// reachable is decided outside and handed in; without it the manager
    /// runs in standalone mode.
    pub fn new(cluster_id: ClusterId, kube_available: bool) -> (r: DiscoveryManager)
        ensures
            r.id_view() == cluster_id.id_seq(),
            r.spec_kube_available() == kube_available,
            r.clusters_view() =~= Seq::<ClusterInfoView>::empty(),
            r.wf(),
    {
        DiscoveryManager { cluster_id, kube_available, clusters: ClusterRegistry::new() }
    }

    /// The local cluster's identity, as a value.
    pub fn cluster_id(&self) -> (r: ClusterId)
        ensures
            r.id_seq() == self.id_view(),
    {
        self.cluster_id.clone()
    }

    /// Registers a cluster: inserts or replaces its registry entry whole.
    /// Never fails.
    pub fn register_cluster(&mut self, cluster_info: ClusterInfo) -> (r: Result<(), Error>)
        requires
            old(self).wf(),
        ensures
            r is Ok,
            final(self).clusters_view() =~= register_spec(old(self).clusters_view(), cluster_info@),
            final(self).wf(),
            final(self).id_view() == old(self).id_view(),
            final(self).spec_kube_available() == old(self).spec_kube_available(),
    {
        self.clusters.register_or_update(cluster_info);
        Ok(())
    }

    /// Updates a cluster's entry; same whole-value replacement as
    /// registration.
    pub fn update_cluster(&mut self, cluster_info: ClusterInfo) -> (r: Result<(), Error>)
        requires
            old(self).wf(),
        ensures
            r is Ok,
            final(self).clusters_view() =~= register_spec(old(self).clusters_view(), cluster_info@),
            final(self).wf(),
            final(self).id_view() == old(self).id_view(),
            final(self).spec_kube_available() == old(self).spec_kube_available(),
    {
        self.clusters.register_or_update(cluster_info);
        Ok(())
    }

    /// The services visible in the local cluster for the namespace scope.
    /// Either a complete list or an error, never a silent partial list; with
    /// the current enumeration backends the list is total.
    pub fn discover_local_services(&self, namespace: Option<&str>) -> (r: Result<
        Vec<ServiceInfo>,
        Error,
    >)
        ensures
            r matches Ok(services) && service_views(services@) =~= local_services_model(
                self.spec_kube_available(),
            ),
    {
        let _ = namespace;
        let service = if self.kube_available {
            ServiceInfo {
                name: String::from_str("kubernetes"),
                namespace: String::from_str("default"),
                port: 443,
                protocol: String::from_str("TCP"),
            }
        } else {
            ServiceInfo {
                name: String::from_str("standalone-service"),
                namespace: String::from_str("default"),
                port: 8080,
                protocol: String::from_str("TCP"),
            }
        };
        let mut services: Vec<ServiceInfo> = Vec::new();
        services.push(service);
        proof {
            assert(service_views(services@) =~= local_services_model(self.spec_kube_available()));
        }
        Ok(services)
    }

    /// Information about a specific cluster: a copy of its entry.
    pub fn get_cluster_info(&self, cluster_id: &ClusterId) -> (r: Option<ClusterInfo>)
        requires
            self.wf(),
        ensures
            match r {
                Some(c) => lookup_spec(self.clusters_view(), cluster_id.id_seq()) == Some(c@),
                None => lookup_spec(self.clusters_view(), cluster_id.id_seq()) is None,
            },
    {
        self.clusters.get(cluster_id)
    }

    /// A snapshot of all known clusters at call time.
    pub fn list_clusters(&self) -> (r: Vec<ClusterInfo>)
        ensures
            crate::registry::views_of(r@) =~= self.clusters_view(),
    {
        self.clusters.list()
    }

    /// Which cluster hosts the given service; the most-recently-updated
    /// advertiser wins, deterministically.
    pub fn find_service(&self, service_name: &str, namespace: &str) -> (r: Option<ClusterInfo>)
        ensures
            match r {
                Some(c) => find_service_spec(self.clusters_view(), service_name@, namespace@)
                    == Some(c@),
                None => find_service_spec(self.clusters_view(), service_name@, namespace@) is None,
            },
    {
        self.clusters.find_service(service_name, namespace)
    }

    /// Removes a cluster's entry, used on explicit departure.
    pub fn remove_cluster(&mut self, cluster_id: &ClusterId) -> (r: Result<(), Error>)
        requires
            old(self).wf(),
        ensures
            r is Ok,
            final(self).clusters_view() =~= without_id(
                old(self).clusters_view(),
                cluster_id.id_seq(),
            ),
            final(self).wf(),
            final(self).id_view() == old(self).id_view(),
            final(self).spec_kube_available() == old(self).spec_kube_available(),
    {
        self.clusters.remove(cluster_id);
        Ok(())
    }
}

} // verus!
