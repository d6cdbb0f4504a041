//! Cross-cluster service mesh core: a cluster registry with deterministic
//! routing resolution, discovery-coordination decisions, and the data-plane
//! connection state machine.
//!
//! Everything here is pure logic over plain values. The surrounding process
//! (sockets, the secure peer-to-peer transport, the Kubernetes client) lives
//! outside this crate's verified boundary and exchanges plain values with it.

use vstd::prelude::*;

pub mod agent;
pub mod config;
pub mod discovery;
pub mod error;
pub mod proxy;
pub mod registry;
pub mod tunnel;

verus! {

/// Opaque identifier of a cluster in the mesh, unique per cluster and the
/// registry key. Expected non-empty and stable for the lifetime of the
/// cluster's membership.
#[derive(Debug)]
pub struct ClusterId(pub String);

impl ClusterId {
    /// The identifier as a mathematical sequence of characters.
    pub open spec fn id_seq(&self) -> Seq<char> {
        self.0@
    }

    pub fn new(s: String) -> (r: ClusterId)
        ensures
            r.id_seq() == s@,
    {
        ClusterId(s)
    }

    /// Textual form of the identifier (stands in for display formatting).
    pub fn to_text(&self) -> (r: String)
        ensures
            r@ == self.id_seq(),
    {
        self.0.clone()
    }

    /// Equality of two identifiers, decided by their character sequences.
    pub fn same_as(&self, other: &ClusterId) -> (r: bool)
        ensures
            r == (self.id_seq() == other.id_seq()),
    {
        self.0 == other.0
    }
}

impl Clone for ClusterId {
    fn clone(&self) -> (r: Self)
        ensures
            r.id_seq() == self.id_seq(),
    {
        ClusterId(self.0.clone())
    }
}

/// Mathematical model of a [`ServiceInfo`].
pub struct ServiceInfoView {
    pub name: Seq<char>,
    pub namespace: Seq<char>,
    pub port: u16,
    pub protocol: Seq<char>,
}

/// Information about a service exposed by a cluster, uniquely identified by
/// (name, namespace) within that cluster.
#[derive(Debug)]
pub struct ServiceInfo {
    pub name: String,
    pub namespace: String,
    pub port: u16,
    pub protocol: String,
}

impl View for ServiceInfo {
    type V = ServiceInfoView;

    open spec fn view(&self) -> ServiceInfoView {
        ServiceInfoView {
            name: self.name@,
            namespace: self.namespace@,
            port: self.port,
            protocol: self.protocol@,
        }
    }
}

impl Clone for ServiceInfo {
    fn clone(&self) -> (r: Self)
        ensures
            r@ == self@,
    {
        ServiceInfo {
            name: self.name.clone(),
            namespace: self.namespace.clone(),
            port: self.port,
            protocol: self.protocol.clone(),
        }
    }
}

/// Mathematical model of a [`ClusterInfo`].
pub struct ClusterInfoView {
    pub id: Seq<char>,
    pub node_id: Seq<char>,
    pub relay_url: Option<Seq<char>>,
    pub direct_addresses: Seq<Seq<char>>,
    pub services: Seq<ServiceInfoView>,
}

impl ClusterInfoView {
    /// Whether this cluster advertises the given (name, namespace) pair.
    pub open spec fn advertises(&self, name: Seq<char>, namespace: Seq<char>) -> bool {
        exists|i: int|
            0 <= i < self.services.len() && self.services[i].name == name
                && self.services[i].namespace == namespace
    }
}

/// Information about one cluster in the mesh: its identity, how its peer node
/// can be reached, and the services it currently advertises. The node identity
/// and addresses are carried in their textual forms.
#[derive(Debug)]
pub struct ClusterInfo {
    pub id: ClusterId,
    pub node_id: String,
    pub relay_url: Option<String>,
    pub direct_addresses: Vec<String>,
    pub services: Vec<ServiceInfo>,
}

impl View for ClusterInfo {
    type V = ClusterInfoView;

    open spec fn view(&self) -> ClusterInfoView {
        ClusterInfoView {
            id: self.id.id_seq(),
            node_id: self.node_id@,
            relay_url: match self.relay_url {
                Some(u) => Some(u@),
                None => None,
            },
            direct_addresses: self.direct_addresses.deep_view(),
            services: Seq::new(self.services@.len(), |i: int| self.services@[i]@),
        }
    }
}

impl Clone for ClusterInfo {
    fn clone(&self) -> (r: Self)
        ensures
            r@ == self@,
    {
        let relay_url = match &self.relay_url {
            Some(u) => Some(u.clone()),
            None => None,
        };
        let mut direct_addresses: Vec<String> = Vec::new();
        let mut i: usize = 0;
        while i < self.direct_addresses.len()
            invariant
                i <= self.direct_addresses.len(),
                direct_addresses@.len() == i,
                forall|k: int|
                    0 <= k < i ==> direct_addresses@[k]@ == (#[trigger] self.direct_addresses@[k])@,
            decreases self.direct_addresses.len() - i,
        {
            direct_addresses.push(self.direct_addresses[i].clone());
            i += 1;
        }
        let mut services: Vec<ServiceInfo> = Vec::new();
        let mut j: usize = 0;
        while j < self.services.len()
            invariant
                j <= self.services.len(),
                services@.len() == j,
                forall|k: int| 0 <= k < j ==> services@[k]@ == self.services@[k]@,
            decreases self.services.len() - j,
        {
            services.push(self.services[j].clone());
            j += 1;
        }
        let r = ClusterInfo {
            id: self.id.clone(),
            node_id: self.node_id.clone(),
            relay_url,
            direct_addresses,
            services,
        };
        proof {
            assert(r@.direct_addresses =~= self@.direct_addresses);
            assert(r@.services =~= self@.services);
            assert(r@ =~= self@);
        }
        r
    }
}

/// The resolution of a (service name, namespace) request against the registry:
/// which cluster to tunnel to and which service/port to ask for there.
pub struct CrossClusterRouteView {
    pub target_cluster: Seq<char>,
    pub target_service: Seq<char>,
    pub target_namespace: Seq<char>,
    pub target_port: u16,
}

/// Configuration for cross-cluster service routing, derived on demand from the
/// registry rather than stored.
#[derive(Debug)]
pub struct CrossClusterRoute {
    pub target_cluster: ClusterId,
    pub target_service: String,
    pub target_namespace: String,
    pub target_port: u16,
}

impl View for CrossClusterRoute {
    type V = CrossClusterRouteView;

    open spec fn view(&self) -> CrossClusterRouteView {
        CrossClusterRouteView {
            target_cluster: self.target_cluster.id_seq(),
            target_service: self.target_service@,
            target_namespace: self.target_namespace@,
            target_port: self.target_port,
        }
    }
}

/// ALPN protocol identifier for mesh communication.
pub const MESH_ALPN: &'static str = "iroh-mesh/v1";

/// Default port for the mesh proxy.
pub const DEFAULT_PROXY_PORT: u16 = 15001;

/// Default port for the mesh agent.
pub const DEFAULT_AGENT_PORT: u16 = 15002;

} // verus!
