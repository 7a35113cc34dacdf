use kubecon_controller::{
    mk_external_workload, Condition, ConditionStatus, ExternalWorkload, ExternalWorkloadSpec,
    ExternalWorkloadStatus, MeshTls, ObjectMeta, PortSpec, Timestamp, WorkloadIP,
};

fn workload(name: Option<&str>, generate_name: Option<&str>) -> ExternalWorkload {
    let mut w = mk_external_workload("placeholder", "ns", vec![80]);
    w.metadata.name = name.map(|s| s.to_string());
    w.metadata.generate_name = generate_name.map(|s| s.to_string());
    w
}

#[test]
fn mk_external_workload_builds_the_whole_object() {
    let w = mk_external_workload("test-123", "default", vec![80, 8080]);
    assert_eq!(
        w,
        ExternalWorkload {
            metadata: ObjectMeta {
                name: Some("test-123".to_string()),
                generate_name: None,
                namespace: Some("default".to_string()),
            },
            spec: ExternalWorkloadSpec {
                mesh_tls: MeshTls {
                    identity: "test-123.default.serviceaccount.identity.linkerd.cluster.local"
                        .to_string(),
                    server_name: "test-123.default.cluster.local".to_string(),
                },
                ports: Some(vec![
                    PortSpec { name: None, port: 80, protocol: None },
                    PortSpec { name: None, port: 8080, protocol: None },
                ]),
                workload_ips: Some(vec![WorkloadIP { ip: "192.0.2.0".to_string() }]),
            },
            status: None,
        }
    );
}

#[test]
fn mk_external_workload_without_ports() {
    let w = mk_external_workload("w", "ns", vec![]);
    assert_eq!(w.spec.ports, Some(vec![]));
    assert_eq!(w.spec.mesh_tls.identity, "w.ns.serviceaccount.identity.linkerd.cluster.local");
    assert_eq!(w.spec.mesh_tls.server_name, "w.ns.cluster.local");
    assert_eq!(w.status, None);
}

#[test]
fn mk_external_workload_keeps_the_highest_port() {
    let w = mk_external_workload("w", "ns", vec![65535, 1]);
    let ports = w.spec.ports.expect("ports are set");
    assert_eq!(ports.len(), 2);
    assert_eq!(ports[0].port, 65535);
    assert_eq!(ports[1].port, 1);
}

#[test]
fn name_any_prefers_the_name() {
    assert_eq!(workload(Some("w"), Some("gen-")).name_any(), "w");
    assert_eq!(workload(Some("w"), None).name_any(), "w");
}

#[test]
fn name_any_falls_back_on_the_generated_prefix() {
    assert_eq!(workload(None, Some("gen-")).name_any(), "gen-");
}

#[test]
fn name_any_is_empty_without_any_name() {
    assert_eq!(workload(None, None).name_any(), "");
}

#[test]
fn namespace_is_handed_out() {
    let mut w = mk_external_workload("w", "ns", vec![80]);
    assert_eq!(w.namespace(), Some("ns".to_string()));
    w.metadata.namespace = None;
    assert_eq!(w.namespace(), None);
}

#[test]
fn a_port_speaks_tcp_unless_it_says_otherwise() {
    let port = PortSpec { name: None, port: 53, protocol: None };
    assert_eq!(port.effective_protocol(), "TCP");
    let port = PortSpec { name: Some("dns".to_string()), port: 53, protocol: Some("UDP".to_string()) };
    assert_eq!(port.effective_protocol(), "UDP");
}

#[test]
fn readiness_of_a_workload() {
    let mut w = mk_external_workload("w", "ns", vec![80]);
    assert!(!w.is_ready());
    assert!(!w.is_settled());
    w.status = Some(ExternalWorkloadStatus { conditions: vec![] });
    assert!(!w.is_ready());
    assert!(!w.is_settled());
    let t = Timestamp { secs: 1, nanos: 0 };
    let mut unready = Condition::ready_at(t, t);
    unready.status = ConditionStatus::False;
    w.status = Some(ExternalWorkloadStatus { conditions: vec![unready] });
    assert!(!w.is_ready());
    assert!(w.is_settled());
    w.status = Some(ExternalWorkloadStatus { conditions: vec![Condition::ready_at(t, t)] });
    assert!(w.is_ready());
    assert!(w.is_settled());
}

#[test]
fn a_clone_equals_the_workload_it_was_made_from() {
    let t = Timestamp { secs: 1, nanos: 0 };
    let mut w = mk_external_workload("w", "ns", vec![80, 443]);
    w.metadata.generate_name = Some("w-".to_string());
    w.spec.ports.as_mut().expect("ports are set")[0].name = Some("http".to_string());
    w.status = Some(ExternalWorkloadStatus { conditions: vec![Condition::ready_at(t, t)] });
    assert_eq!(w.clone(), w);
    assert_eq!(w.spec.clone(), w.spec);
    assert_eq!(w.metadata.clone(), w.metadata);
}
