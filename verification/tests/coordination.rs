use iroh_mesh::agent::{cluster_status, registration_tick};
use iroh_mesh::config::{AgentConfig, ProxyConfig};
use iroh_mesh::discovery::DiscoveryManager;
use iroh_mesh::error::Error;
use iroh_mesh::{ClusterId, ServiceInfo, DEFAULT_AGENT_PORT, DEFAULT_PROXY_PORT, MESH_ALPN};

fn svc(name: &str, namespace: &str, port: u16) -> ServiceInfo {
    ServiceInfo {
        name: name.to_string(),
        namespace: namespace.to_string(),
        port,
        protocol: "TCP".to_string(),
    }
}

fn manager(local: &str) -> DiscoveryManager {
    DiscoveryManager::new(ClusterId::new(local.to_string()), false)
}

#[test]
fn successful_tick_publishes_the_local_entry() {
    let mut m = manager("local");
    let services = vec![svc("web", "default", 80)];
    registration_tick(&mut m, "node-l".to_string(), None, Vec::new(), Ok(services)).unwrap();

    let entry = m.get_cluster_info(&ClusterId::new("local".to_string())).unwrap();
    assert_eq!(entry.id.0, "local");
    assert_eq!(entry.node_id, "node-l");
    assert!(entry.relay_url.is_none());
    assert!(entry.direct_addresses.is_empty());
    assert_eq!(entry.services.len(), 1);
    assert_eq!(entry.services[0].name, "web");
}

#[test]
fn failed_tick_leaves_the_previous_entry_unchanged() {
    let mut m = manager("local");
    registration_tick(
        &mut m,
        "node-l".to_string(),
        None,
        Vec::new(),
        Ok(vec![svc("web", "default", 80)]),
    )
    .unwrap();

    let err = registration_tick(
        &mut m,
        "node-l".to_string(),
        None,
        Vec::new(),
        Err(Error::Discovery("backend unreachable".to_string())),
    )
    .unwrap_err();
    assert_eq!(err.message(), "backend unreachable");

    // No partial overwrite: the earlier registration is still there, whole.
    let entry = m.get_cluster_info(&ClusterId::new("local".to_string())).unwrap();
    assert_eq!(entry.services.len(), 1);
    assert_eq!(entry.services[0].name, "web");
    assert_eq!(entry.services[0].port, 80);
}

#[test]
fn refreshed_tick_replaces_the_local_entry() {
    let mut m = manager("local");
    registration_tick(
        &mut m,
        "node-l".to_string(),
        None,
        Vec::new(),
        Ok(vec![svc("web", "default", 80)]),
    )
    .unwrap();
    registration_tick(
        &mut m,
        "node-l".to_string(),
        Some("https://relay.example".to_string()),
        vec!["10.0.0.1:4433".to_string()],
        Ok(vec![svc("web", "default", 80), svc("db", "default", 5432)]),
    )
    .unwrap();

    let entry = m.get_cluster_info(&ClusterId::new("local".to_string())).unwrap();
    assert_eq!(entry.relay_url.as_deref(), Some("https://relay.example"));
    assert_eq!(entry.direct_addresses, vec!["10.0.0.1:4433".to_string()]);
    assert_eq!(entry.services.len(), 2);
    assert_eq!(m.list_clusters().len(), 1);
}

#[test]
fn status_reports_identity_services_and_peers() {
    let mut m = manager("local");
    registration_tick(&mut m, "node-l".to_string(), None, Vec::new(), Ok(Vec::new())).unwrap();
    let mut peer = Vec::new();
    peer.push(svc("pong-svc", "default", 7777));
    m.register_cluster(iroh_mesh::ClusterInfo {
        id: ClusterId::new("peer-b".to_string()),
        node_id: "node-b".to_string(),
        relay_url: None,
        direct_addresses: Vec::new(),
        services: peer,
    })
    .unwrap();

    let status = cluster_status(&m, &"node-l".to_string());
    assert_eq!(status.cluster_id, "local");
    assert_eq!(status.node_id, "node-l");
    assert_eq!(status.node_addr, "pending");
    // Standalone mode reports the placeholder local service.
    assert_eq!(status.services.len(), 1);
    assert_eq!(status.services[0].name, "standalone-service");
    assert_eq!(status.services[0].port, 8080);
    // Peers exclude the local cluster itself.
    assert_eq!(status.peer_clusters, vec!["peer-b".to_string()]);
}

#[test]
fn local_discovery_depends_on_backend_availability() {
    let standalone = manager("local");
    let listed = standalone.discover_local_services(None).unwrap();
    assert_eq!(listed.len(), 1);
    assert_eq!(listed[0].name, "standalone-service");
    assert_eq!(listed[0].namespace, "default");
    assert_eq!(listed[0].port, 8080);
    assert_eq!(listed[0].protocol, "TCP");

    let with_kube = DiscoveryManager::new(ClusterId::new("local".to_string()), true);
    let listed = with_kube.discover_local_services(Some("default")).unwrap();
    assert_eq!(listed.len(), 1);
    assert_eq!(listed[0].name, "kubernetes");
    assert_eq!(listed[0].port, 443);
}

#[test]
fn config_defaults_match_the_documented_ports() {
    let p = ProxyConfig::default();
    assert_eq!(p.bind_address, "127.0.0.1:15001");
    assert_eq!(p.cluster_id.0, "default");
    assert!(p.secret_key_path.is_none());
    assert!(!p.enable_interception);
    assert!(p.kubernetes.namespace.is_none());

    let a = AgentConfig::default();
    assert_eq!(a.bind_address, "127.0.0.1:15002");
    assert_eq!(a.cluster_id.0, "default");
    assert!(a.discovery.enable_dns);
    assert!(!a.discovery.enable_mdns);
    assert!(a.discovery.endpoints.is_empty());

    assert_eq!(DEFAULT_PROXY_PORT, 15001);
    assert_eq!(DEFAULT_AGENT_PORT, 15002);
    assert_eq!(MESH_ALPN, "iroh-mesh/v1");
}

#[test]
fn empty_cluster_identity_is_a_configuration_error() {
    let mut p = ProxyConfig::default();
    assert!(p.validate().is_ok());
    p.cluster_id = ClusterId::new(String::new());
    let err = p.validate().unwrap_err();
    assert_eq!(err.message(), "cluster identity must not be empty");

    let mut a = AgentConfig::default();
    assert!(a.validate().is_ok());
    a.cluster_id = ClusterId::new(String::new());
    assert!(a.validate().is_err());
}

#[test]
fn errors_carry_their_message() {
    assert_eq!(Error::Proxy("p".to_string()).message(), "p");
    assert_eq!(Error::Config("c".to_string()).message(), "c");
    assert_eq!(Error::Network("n".to_string()).message(), "n");
    assert_eq!(Error::Discovery("d".to_string()).message(), "d");
    assert_eq!(Error::Agent("a".to_string()).message(), "a");
    assert_eq!(Error::Io("i".to_string()).message(), "i");
    assert_eq!(Error::Kube("k".to_string()).message(), "k");
    assert_eq!(Error::Serde("s".to_string()).message(), "s");
    assert_eq!(Error::Iroh("t".to_string()).message(), "t");
}
