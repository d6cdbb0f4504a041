use iroh_mesh::discovery::DiscoveryManager;
use iroh_mesh::proxy::{extract_host_header, parse_destination, route_request};
use iroh_mesh::{ClusterId, ClusterInfo, ServiceInfo};

fn svc(name: &str, namespace: &str, port: u16) -> ServiceInfo {
    ServiceInfo {
        name: name.to_string(),
        namespace: namespace.to_string(),
        port,
        protocol: "TCP".to_string(),
    }
}

fn cluster(id: &str, node: &str, services: Vec<ServiceInfo>) -> ClusterInfo {
    ClusterInfo {
        id: ClusterId::new(id.to_string()),
        node_id: node.to_string(),
        relay_url: None,
        direct_addresses: Vec::new(),
        services,
    }
}

#[test]
fn extracts_host_from_request() {
    let request = "GET / HTTP/1.1\r\nHost: example.com\r\nAccept: */*\r\n\r\n";
    assert_eq!(extract_host_header(request).unwrap(), "example.com");
}

#[test]
fn host_match_is_case_insensitive() {
    let request = "GET / HTTP/1.1\r\nhOsT: Example.Com\r\n\r\n";
    assert_eq!(extract_host_header(request).unwrap(), "Example.Com");
}

#[test]
fn host_value_is_trimmed() {
    let request = "GET / HTTP/1.1\r\nHost:   web.apps  \r\n\r\n";
    assert_eq!(extract_host_header(request).unwrap(), "web.apps");
}

#[test]
fn first_host_line_wins() {
    let request = "GET / HTTP/1.1\r\nHost: first\r\nHost: second\r\n\r\n";
    assert_eq!(extract_host_header(request).unwrap(), "first");
}

#[test]
fn missing_host_is_a_proxy_error() {
    let request = "GET / HTTP/1.1\r\nAccept: */*\r\n\r\n";
    let err = extract_host_header(request).unwrap_err();
    assert_eq!(err.message(), "No Host header found");
}

#[test]
fn empty_request_is_a_proxy_error() {
    assert!(extract_host_header("").is_err());
}

#[test]
fn host_without_newline_is_found() {
    assert_eq!(extract_host_header("Host: bare").unwrap(), "bare");
}

#[test]
fn destination_with_namespace_and_suffix() {
    let (service, namespace) = parse_destination("web.apps.svc.cluster.local:8080");
    assert_eq!(service, "web");
    assert_eq!(namespace, "apps");
}

#[test]
fn destination_single_label_defaults_namespace() {
    let (service, namespace) = parse_destination("web");
    assert_eq!(service, "web");
    assert_eq!(namespace, "default");

    let (service, namespace) = parse_destination("web:9090");
    assert_eq!(service, "web");
    assert_eq!(namespace, "default");
}

#[test]
fn routes_to_the_cluster_advertising_the_service() {
    let mut m = DiscoveryManager::new(ClusterId::new("local".to_string()), false);
    m.register_cluster(cluster("local", "node-l", vec![svc("web", "default", 80)]))
        .unwrap();
    m.register_cluster(cluster("b", "node-b", vec![svc("pong-svc", "default", 7777)]))
        .unwrap();

    let request = "GET / HTTP/1.1\r\nHost: pong-svc\r\n\r\n";
    let route = route_request(&m, request).unwrap();
    assert_eq!(route.target_cluster.0, "b");
    assert_eq!(route.target_service, "pong-svc");
    assert_eq!(route.target_namespace, "default");
    assert_eq!(route.target_port, 7777);
}

#[test]
fn routes_by_namespace_label() {
    let mut m = DiscoveryManager::new(ClusterId::new("local".to_string()), false);
    m.register_cluster(cluster("b", "node-b", vec![svc("api", "prod", 443)]))
        .unwrap();

    let route = route_request(&m, "GET / HTTP/1.1\r\nHost: api.prod.svc:9999\r\n\r\n").unwrap();
    assert_eq!(route.target_cluster.0, "b");
    assert_eq!(route.target_namespace, "prod");
    // The advertised port wins over anything in the host text.
    assert_eq!(route.target_port, 443);
}

#[test]
fn unknown_service_is_rejected_without_a_route() {
    let mut m = DiscoveryManager::new(ClusterId::new("local".to_string()), false);
    m.register_cluster(cluster("b", "node-b", vec![svc("pong-svc", "default", 7777)]))
        .unwrap();

    let err = route_request(&m, "GET / HTTP/1.1\r\nHost: absent\r\n\r\n").unwrap_err();
    assert_eq!(err.message(), "service not found");
}

#[test]
fn request_without_metadata_is_rejected() {
    let m = DiscoveryManager::new(ClusterId::new("local".to_string()), false);
    let err = route_request(&m, "GET / HTTP/1.1\r\n\r\n").unwrap_err();
    assert_eq!(err.message(), "No Host header found");
}
