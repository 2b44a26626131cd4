use loki_harvester::errors::HarvestError;
use loki_harvester::k8s::{filter_pod_names, parse_pod_list, K8SManager, KubeBundle, ClusterEntry,
    UserEntry};

const POD_LIST: &str = r#"{
    "items": [
        {
            "metadata": {
                "name": "pod-1",
                "namespace": "default"
            }
        },
        {
            "metadata": {
                "name": "pod-2",
                "namespace": "namespace-1"
            }
        }
    ]
}"#;

#[test]
fn test_pod_list() {
    let result = parse_pod_list(POD_LIST);
    assert!(result.is_ok());
}

#[test]
fn pod_list_names_and_namespaces() {
    let pods = parse_pod_list(POD_LIST).unwrap();
    assert_eq!(pods.len(), 2);
    assert_eq!(pods[0].name, "pod-1");
    assert_eq!(pods[0].namespace, "default");
    assert_eq!(pods[1].name, "pod-2");
    assert_eq!(pods[1].namespace, "namespace-1");
}

#[test]
fn listing_filters_by_name_prefix() {
    let pods = parse_pod_list(POD_LIST).unwrap();
    let exact = filter_pod_names(&pods, "pod-1");
    assert_eq!(exact, vec!["pod-1".to_string()]);
    let both = filter_pod_names(&pods, "pod");
    assert_eq!(both, vec!["pod-1".to_string(), "pod-2".to_string()]);
    let none = filter_pod_names(&pods, "other");
    assert!(none.is_empty());
}

#[test]
fn extra_fields_are_ignored() {
    let body = r#"{
        "kind": "PodList",
        "items": [
            {
                "metadata": {
                    "name": "pod-9",
                    "namespace": "default",
                    "labels": { "app": "x" }
                },
                "status": { "phase": "Running" }
            }
        ]
    }"#;
    let pods = parse_pod_list(body).unwrap();
    assert_eq!(pods.len(), 1);
    assert_eq!(pods[0].name, "pod-9");
}

#[test]
fn malformed_json_is_an_api_error() {
    let result = parse_pod_list("{ not json");
    assert_eq!(result.unwrap_err(), HarvestError::Api);
}

#[test]
fn missing_items_is_an_api_error() {
    let result = parse_pod_list(r#"{"pods": []}"#);
    assert_eq!(result.unwrap_err(), HarvestError::Api);
}

#[test]
fn non_string_name_is_an_api_error() {
    let body = r#"{"items": [{"metadata": {"name": 7, "namespace": "default"}}]}"#;
    let result = parse_pod_list(body);
    assert_eq!(result.unwrap_err(), HarvestError::Api);
}

#[test]
fn missing_namespace_is_an_api_error() {
    let body = r#"{"items": [{"metadata": {"name": "pod-1"}}]}"#;
    let result = parse_pod_list(body);
    assert_eq!(result.unwrap_err(), HarvestError::Api);
}

fn bundle(ca: &str, cert: &str, key: &str) -> KubeBundle {
    KubeBundle {
        clusters: vec![ClusterEntry {
            ca_cert: ca.to_string(),
            server: "https://127.0.0.1:6443".to_string(),
        }],
        users: vec![UserEntry { certificate: cert.to_string(), key: key.to_string() }],
    }
}

#[test]
fn request_material_decodes_the_bundle() {
    // "hello", "world", "12345" in standard base64.
    let manager = K8SManager::new(bundle("aGVsbG8=", "d29ybGQ=", "MTIzNDU="));
    let req = manager.get_pods_request().unwrap();
    assert_eq!(req.url, "https://127.0.0.1:6443/api/v1/pods");
    assert_eq!(req.ca_cert, b"hello".to_vec());
    assert_eq!(req.client_cert, b"world".to_vec());
    assert_eq!(req.client_key, b"12345".to_vec());
}

#[test]
fn malformed_base64_is_a_decode_error() {
    let manager = K8SManager::new(bundle("!!!not-base64!!!", "d29ybGQ=", "MTIzNDU="));
    assert_eq!(manager.get_pods_request().unwrap_err(), HarvestError::Decode);
    let manager = K8SManager::new(bundle("aGVsbG8=", "x", "MTIzNDU="));
    assert_eq!(manager.get_pods_request().unwrap_err(), HarvestError::Decode);
}
