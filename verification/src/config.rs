//! Configuration for the mesh components.
//!
//! Addresses and file paths are carried in their textual forms; reading or
//! writing configuration files, and parsing the texts into richer types,
//! happens outside the verified boundary.

use vstd::prelude::*;
use crate::error::Error;
use crate::ClusterId;

verus! {

/// Kubernetes client configuration.
pub struct KubernetesConfig {
    /// Namespace to watch for services (`None` = all namespaces).
    pub namespace: Option<String>,
    /// Service account token path.
    pub token_path: Option<String>,
    /// CA certificate path.
    pub ca_cert_path: Option<String>,
}

/// Discovery configuration.
pub struct DiscoveryConfig {
    /// Enable DNS discovery.
    pub enable_dns: bool,
    /// Enable mDNS discovery.
    pub enable_mdns: bool,
    /// Custom discovery endpoints.
    pub endpoints: Vec<String>,
}

/// Configuration for the mesh proxy.
pub struct ProxyConfig {
    /// Address to bind the proxy server to, as `host:port` text.
    pub bind_address: String,
    /// Cluster identity for this proxy.
    pub cluster_id: ClusterId,
    /// Path to the secret key file for the secure transport.
    pub secret_key_path: Option<String>,
    /// Enable traffic interception.
    pub enable_interception: bool,
    /// Kubernetes configuration.
    pub kubernetes: KubernetesConfig,
}

/// Configuration for the mesh agent.
pub struct AgentConfig {
    /// Address to bind the agent API to, as `host:port` text.
    pub bind_address: String,
    /// Cluster identity for this agent.
    pub cluster_id: ClusterId,
    /// Path to the secret key file for the secure transport.
    pub secret_key_path: Option<String>,
    /// Kubernetes configuration.
    pub kubernetes: KubernetesConfig,
    /// Discovery configuration.
    pub discovery: DiscoveryConfig,
}

impl Clone for KubernetesConfig {
    fn clone(&self) -> (r: Self)
        ensures
            r.namespace.deep_view() == self.namespace.deep_view(),
            r.token_path.deep_view() == self.token_path.deep_view(),
            r.ca_cert_path.deep_view() == self.ca_cert_path.deep_view(),
    {
        KubernetesConfig {
            namespace: clone_opt(&self.namespace),
            token_path: clone_opt(&self.token_path),
            ca_cert_path: clone_opt(&self.ca_cert_path),
        }
    }
}

impl Clone for DiscoveryConfig {
    fn clone(&self) -> (r: Self)
        ensures
            r.enable_dns == self.enable_dns,
            r.enable_mdns == self.enable_mdns,
            r.endpoints.deep_view() == self.endpoints.deep_view(),
    {
        DiscoveryConfig {
            enable_dns: self.enable_dns,
            enable_mdns: self.enable_mdns,
            endpoints: clone_strings(&self.endpoints),
        }
    }
}

impl Clone for ProxyConfig {
    fn clone(&self) -> (r: Self)
        ensures
            r.bind_address@ == self.bind_address@,
            r.cluster_id.id_seq() == self.cluster_id.id_seq(),
            r.secret_key_path.deep_view() == self.secret_key_path.deep_view(),
            r.enable_interception == self.enable_interception,
            r.kubernetes.namespace.deep_view() == self.kubernetes.namespace.deep_view(),
    {
        ProxyConfig {
            bind_address: self.bind_address.clone(),
            cluster_id: self.cluster_id.clone(),
            secret_key_path: clone_opt(&self.secret_key_path),
            enable_interception: self.enable_interception,
            kubernetes: self.kubernetes.clone(),
        }
    }
}

impl Clone for AgentConfig {
    fn clone(&self) -> (r: Self)
        ensures
            r.bind_address@ == self.bind_address@,
            r.cluster_id.id_seq() == self.cluster_id.id_seq(),
            r.secret_key_path.deep_view() == self.secret_key_path.deep_view(),
            r.kubernetes.namespace.deep_view() == self.kubernetes.namespace.deep_view(),
            r.discovery.enable_dns == self.discovery.enable_dns,
            r.discovery.enable_mdns == self.discovery.enable_mdns,
    {
        AgentConfig {
            bind_address: self.bind_address.clone(),
            cluster_id: self.cluster_id.clone(),
            secret_key_path: clone_opt(&self.secret_key_path),
            kubernetes: self.kubernetes.clone(),
            discovery: self.discovery.clone(),
        }
    }
}

/// A copy of an optional text, same characters.
fn clone_opt(o: &Option<String>) -> (r: Option<String>)
    ensures
        r.deep_view() == o.deep_view(),
{
    match o {
        Some(s) => Some(s.clone()),
        None => None,
    }
}

/// A copy of a list of texts, same characters in the same order.
fn clone_strings(v: &Vec<String>) -> (r: Vec<String>)
    ensures
        r.deep_view() == v.deep_view(),
{
    let mut out: Vec<String> = Vec::new();
    let mut i: usize = 0;
    while i < v.len()
        invariant
            i <= v@.len(),
            out@.len() == i,
            forall|k: int| 0 <= k < i ==> out@[k]@ == (#[trigger] v@[k])@,
        decreases v@.len() - i,
    {
        out.push(v[i].clone());
        i += 1;
    }
    proof {
        assert(out.deep_view() =~= v.deep_view());
    }
    out
}

impl Default for KubernetesConfig {
    fn default() -> (r: KubernetesConfig)
        ensures
            r.namespace is None,
            r.token_path matches Some(t) && t@ == "/var/run/secrets/kubernetes.io/serviceaccount/token"@,
            r.ca_cert_path matches Some(c) && c@ == "/var/run/secrets/kubernetes.io/serviceaccount/ca.crt"@,
    {
        KubernetesConfig {
            namespace: None,
            token_path: Some(
                String::from_str("/var/run/secrets/kubernetes.io/serviceaccount/token"),
            ),
            ca_cert_path: Some(
                String::from_str("/var/run/secrets/kubernetes.io/serviceaccount/ca.crt"),
            ),
        }
    }
}

impl Default for DiscoveryConfig {
    fn default() -> (r: DiscoveryConfig)
        ensures
            r.enable_dns,
            !r.enable_mdns,
            r.endpoints@.len() == 0,
    {
        DiscoveryConfig { enable_dns: true, enable_mdns: false, endpoints: Vec::new() }
    }
}

impl Default for ProxyConfig {
    fn default() -> (r: ProxyConfig)
        ensures
            r.bind_address@ == "127.0.0.1:15001"@,
            r.cluster_id.id_seq() == "default"@,
            r.secret_key_path is None,
            !r.enable_interception,
            r.kubernetes.namespace is None,
    {
        ProxyConfig {
            bind_address: String::from_str("127.0.0.1:15001"),
            cluster_id: ClusterId::new(String::from_str("default")),
            secret_key_path: None,
            enable_interception: false,
            kubernetes: KubernetesConfig::default(),
        }
    }
}

impl Default for AgentConfig {
    fn default() -> (r: AgentConfig)
        ensures
            r.bind_address@ == "127.0.0.1:15002"@,
            r.cluster_id.id_seq() == "default"@,
            r.secret_key_path is None,
            r.kubernetes.namespace is None,
            r.discovery.enable_dns,
            !r.discovery.enable_mdns,
            r.discovery.endpoints@.len() == 0,
    {
        AgentConfig {
            bind_address: String::from_str("127.0.0.1:15002"),
            cluster_id: ClusterId::new(String::from_str("default")),
            secret_key_path: None,
            kubernetes: KubernetesConfig::default(),
            discovery: DiscoveryConfig::default(),
        }
    }
}

/// A cluster identity is valid when it is non-empty; an empty identity is a
/// configuration error, fatal at startup.
pub fn validate_cluster_id(cluster_id: &ClusterId) -> (r: Result<(), Error>)
    ensures
        r is Ok <==> cluster_id.id_seq().len() > 0,
        r matches Err(e) ==> e.is_config(),
{
    if cluster_id.0.as_str().is_empty() {
        Err(Error::Config(String::from_str("cluster identity must not be empty")))
    } else {
        Ok(())
    }
}

impl ProxyConfig {
    /// Startup validation: the identity invariant must hold.
    pub fn validate(&self) -> (r: Result<(), Error>)
        ensures
            r is Ok <==> self.cluster_id.id_seq().len() > 0,
            r matches Err(e) ==> e.is_config(),
    {
        validate_cluster_id(&self.cluster_id)
    }
}

impl AgentConfig {
    /// Startup validation: the identity invariant must hold.
    pub fn validate(&self) -> (r: Result<(), Error>)
        ensures
            r is Ok <==> self.cluster_id.id_seq().len() > 0,
            r matches Err(e) ==> e.is_config(),
    {
        validate_cluster_id(&self.cluster_id)
    }
}

} // verus!
