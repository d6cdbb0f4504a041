use iroh_mesh::discovery::DiscoveryManager;
use iroh_mesh::{ClusterId, ClusterInfo, ServiceInfo};

fn svc(name: &str, namespace: &str, port: u16) -> ServiceInfo {
    ServiceInfo {
        name: name.to_string(),
        namespace: namespace.to_string(),
        port,
        protocol: "TCP".to_string(),
    }
}

fn cluster(id: &str, node: &str, services: Vec<ServiceInfo>) -> ClusterInfo {
    ClusterInfo {
        id: ClusterId::new(id.to_string()),
        node_id: node.to_string(),
        relay_url: None,
        direct_addresses: Vec::new(),
        services,
    }
}

fn manager(local: &str) -> DiscoveryManager {
    DiscoveryManager::new(ClusterId::new(local.to_string()), false)
}

#[test]
fn get_returns_registered_value() {
    let mut m = manager("local");
    m.register_cluster(cluster("a", "node-a", vec![svc("web", "default", 80)]))
        .unwrap();
    let got = m.get_cluster_info(&ClusterId::new("a".to_string())).unwrap();
    assert_eq!(got.id.0, "a");
    assert_eq!(got.node_id, "node-a");
    assert_eq!(got.services.len(), 1);
    assert_eq!(got.services[0].name, "web");
    assert_eq!(got.services[0].port, 80);
}

#[test]
fn get_unknown_is_none() {
    let m = manager("local");
    assert!(m.get_cluster_info(&ClusterId::new("nowhere".to_string())).is_none());
}

#[test]
fn last_write_wins_for_same_identity() {
    let mut m = manager("local");
    m.register_cluster(cluster("a", "node-a1", vec![svc("web", "default", 80)]))
        .unwrap();
    m.register_cluster(cluster("b", "node-b", vec![svc("db", "default", 5432)]))
        .unwrap();
    m.update_cluster(cluster("a", "node-a2", vec![svc("web", "default", 8080)]))
        .unwrap();
    let got = m.get_cluster_info(&ClusterId::new("a".to_string())).unwrap();
    assert_eq!(got.node_id, "node-a2");
    assert_eq!(got.services[0].port, 8080);
    // The other identity is untouched.
    let other = m.get_cluster_info(&ClusterId::new("b".to_string())).unwrap();
    assert_eq!(other.node_id, "node-b");
}

#[test]
fn update_replaces_the_entry_whole() {
    let mut m = manager("local");
    m.register_cluster(cluster(
        "a",
        "node-a1",
        vec![svc("web", "default", 80), svc("db", "default", 5432)],
    ))
    .unwrap();
    m.update_cluster(cluster("a", "node-a2", vec![svc("cache", "prod", 6379)]))
        .unwrap();
    let got = m.get_cluster_info(&ClusterId::new("a".to_string())).unwrap();
    // No field mixing: the new value replaced the old one entirely.
    assert_eq!(got.node_id, "node-a2");
    assert_eq!(got.services.len(), 1);
    assert_eq!(got.services[0].name, "cache");
    assert_eq!(got.services[0].namespace, "prod");
    assert_eq!(m.list_clusters().len(), 1);
}

#[test]
fn list_is_a_full_snapshot() {
    let mut m = manager("local");
    m.register_cluster(cluster("a", "node-a", vec![])).unwrap();
    m.register_cluster(cluster("b", "node-b", vec![])).unwrap();
    let listed = m.list_clusters();
    assert_eq!(listed.len(), 2);
    let mut ids: Vec<String> = listed.iter().map(|c| c.id.0.clone()).collect();
    ids.sort();
    assert_eq!(ids, vec!["a".to_string(), "b".to_string()]);
}

#[test]
fn find_service_none_when_not_advertised() {
    let mut m = manager("local");
    m.register_cluster(cluster("a", "node-a", vec![svc("web", "default", 80)]))
        .unwrap();
    assert!(m.find_service("web", "prod").is_none());
    assert!(m.find_service("db", "default").is_none());
}

#[test]
fn find_service_returns_an_advertiser() {
    let mut m = manager("local");
    m.register_cluster(cluster("a", "node-a", vec![svc("web", "default", 80)]))
        .unwrap();
    m.register_cluster(cluster("b", "node-b", vec![svc("db", "default", 5432)]))
        .unwrap();
    let got = m.find_service("db", "default").unwrap();
    assert_eq!(got.id.0, "b");
}

#[test]
fn find_service_tie_break_prefers_most_recent_update() {
    let mut m = manager("local");
    m.register_cluster(cluster("a", "node-a", vec![svc("web", "default", 80)]))
        .unwrap();
    m.register_cluster(cluster("b", "node-b", vec![svc("web", "default", 80)]))
        .unwrap();
    // Both advertise (web, default); b registered later.
    assert_eq!(m.find_service("web", "default").unwrap().id.0, "b");
    // Deterministic across repeated calls.
    assert_eq!(m.find_service("web", "default").unwrap().id.0, "b");
    // Refreshing a makes it the most recent, so the tie-break flips.
    m.update_cluster(cluster("a", "node-a", vec![svc("web", "default", 80)]))
        .unwrap();
    assert_eq!(m.find_service("web", "default").unwrap().id.0, "a");
    assert_eq!(m.find_service("web", "default").unwrap().id.0, "a");
}

#[test]
fn remove_deletes_the_entry() {
    let mut m = manager("local");
    m.register_cluster(cluster("a", "node-a", vec![])).unwrap();
    m.register_cluster(cluster("b", "node-b", vec![])).unwrap();
    m.remove_cluster(&ClusterId::new("a".to_string())).unwrap();
    assert!(m.get_cluster_info(&ClusterId::new("a".to_string())).is_none());
    assert_eq!(m.list_clusters().len(), 1);
    // Removing an absent identity is harmless.
    m.remove_cluster(&ClusterId::new("a".to_string())).unwrap();
    assert_eq!(m.list_clusters().len(), 1);
}

#[test]
fn interleaved_updates_keep_the_last_value_per_identity() {
    let mut m = manager("local");
    for round in 0..5 {
        for id in ["a", "b", "c"] {
            m.register_cluster(cluster(id, &format!("{}-{}", id, round), vec![]))
                .unwrap();
        }
    }
    for id in ["a", "b", "c"] {
        let got = m.get_cluster_info(&ClusterId::new(id.to_string())).unwrap();
        assert_eq!(got.node_id, format!("{}-4", id));
    }
    assert_eq!(m.list_clusters().len(), 3);
}
