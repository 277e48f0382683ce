//! Projection of concrete inventories into gauge observations.

use ece_exporter::allocator::Allocator;
use ece_exporter::allocator::AllocatorsRoot;
use ece_exporter::allocator::BuildInfo;
use ece_exporter::allocator::Capacity;
use ece_exporter::allocator::Instance;
use ece_exporter::allocator::KeyValue;
use ece_exporter::allocator::Memory;
use ece_exporter::allocator::PlansInfo;
use ece_exporter::allocator::Status;
use ece_exporter::allocator::Zone;
use ece_exporter::collect::project_allocators;
use ece_exporter::collect::project_proxies;
use ece_exporter::metric::GaugeValue;
use ece_exporter::metric::Metric;
use ece_exporter::metric::MetricName;
use ece_exporter::proxy::ProxiesRoot;
use ece_exporter::proxy::Proxy;

fn labels_of(m: &Metric) -> Vec<(String, String)> {
    m.labels.iter().map(|l| (l.key.clone(), l.value.clone())).collect()
}

fn metric_eq(a: &Metric, b: &Metric) -> bool {
    a.name == b.name && a.value == b.value && labels_of(a) == labels_of(b)
}

fn pairs(raw: &[(&str, &str)]) -> Vec<(String, String)> {
    raw.iter().map(|(k, v)| (k.to_string(), v.to_string())).collect()
}

fn full_instance() -> Instance {
    Instance {
        cluster_type: "elasticsearch".to_string(),
        cluster_id: "c1".to_string(),
        cluster_name: Some("logs".to_string()),
        instance_name: "instance-0".to_string(),
        node_memory: 4096,
        healthy: Some(true),
        cluster_healthy: Some(true),
        instance_configuration_id: "cfg1".to_string(),
        moving: Some(false),
        plans_info: Some(PlansInfo {
            pending: true,
            version: Some("7.17.0".to_string()),
            zone_count: Some(3),
        }),
        deployment_id: Some("d1".to_string()),
    }
}

fn bare_instance() -> Instance {
    Instance {
        cluster_type: "kibana".to_string(),
        cluster_id: "c2".to_string(),
        cluster_name: None,
        instance_name: "instance-1".to_string(),
        node_memory: 1024,
        healthy: None,
        cluster_healthy: None,
        instance_configuration_id: "cfg2".to_string(),
        moving: None,
        plans_info: None,
        deployment_id: None,
    }
}

fn allocator(instances: Vec<Instance>, metadata: Vec<KeyValue>) -> Allocator {
    Allocator {
        status: Status { connected: true, healthy: true, maintenance_mode: false },
        allocator_id: "alloc-1".to_string(),
        zone_id: "zone-a".to_string(),
        host_ip: "10.0.0.1".to_string(),
        public_hostname: "host-1.example".to_string(),
        capacity: Capacity { memory: Memory { total: 68719476736, used: 17179869184 } },
        instances,
        metadata,
        build_info: BuildInfo { commit_hash: "abc123".to_string(), version: "3.5.0".to_string() },
        features: vec!["feature-x".to_string()],
        external_links: vec![],
    }
}

fn root_with(instances: Vec<Instance>, metadata: Vec<KeyValue>) -> AllocatorsRoot {
    AllocatorsRoot {
        zones: vec![Zone { zone_id: "zone-a".to_string(), allocators: vec![allocator(
            instances, metadata,
        )] }],
    }
}

fn count_of(metrics: &[Metric], name: MetricName) -> usize {
    metrics.iter().filter(|m| m.name == name).count()
}

#[test]
fn one_tuple_per_allocator_and_instance() {
    let root = root_with(vec![full_instance(), bare_instance()], vec![]);
    let out = project_allocators(&root, 6000, 1000);
    assert_eq!(count_of(&out, MetricName::AllocatorInfo), 1);
    assert_eq!(count_of(&out, MetricName::AllocatorMemoryUsed), 1);
    assert_eq!(count_of(&out, MetricName::AllocatorMemoryTotal), 1);
    assert_eq!(count_of(&out, MetricName::AllocatorInstancesTotal), 1);
    assert_eq!(count_of(&out, MetricName::AllocatorInstanceInfo), 2);
    assert_eq!(count_of(&out, MetricName::AllocatorInstanceNodeMemory), 2);
    assert_eq!(count_of(&out, MetricName::AllocatorInstanceMonthlyCost), 2);
}

#[test]
fn plan_emitted_iff_plans_info_present() {
    let with_plan = project_allocators(&root_with(vec![full_instance()], vec![]), 6000, 1000);
    assert_eq!(count_of(&with_plan, MetricName::AllocatorInstancePlan), 1);
    let without_plan = project_allocators(&root_with(vec![bare_instance()], vec![]), 6000, 1000);
    assert_eq!(count_of(&without_plan, MetricName::AllocatorInstancePlan), 0);
}

#[test]
fn absent_fields_map_to_sentinels() {
    let out = project_allocators(&root_with(vec![bare_instance()], vec![]), 6000, 1000);
    let info = out.iter().find(|m| m.name == MetricName::AllocatorInstanceInfo).unwrap();
    let labels = labels_of(info);
    assert_eq!(
        labels,
        pairs(&[
            ("zone", "zone-a"),
            ("ip", "host-1.example"),
            ("name", "null"),
            ("cluster_type", "kibana"),
            ("cluster_id", "c2"),
            ("configuration_id", "cfg2"),
            ("deployment_id", "null"),
            ("healthy", "false"),
            ("cluster_healthy", "null"),
            ("moving", "false"),
        ])
    );
}

#[test]
fn allocator_info_label_order_and_value() {
    let tags = vec![
        KeyValue { key: "team".to_string(), value: "db".to_string() },
        KeyValue { key: "rack".to_string(), value: "r7".to_string() },
    ];
    let out = project_allocators(&root_with(vec![], tags), 6000, 1000);
    assert_eq!(out.len(), 4);
    let info = &out[0];
    assert_eq!(info.name, MetricName::AllocatorInfo);
    assert_eq!(info.value, GaugeValue::Count(1));
    assert_eq!(
        labels_of(info),
        pairs(&[
            ("zone", "zone-a"),
            ("ip", "host-1.example"),
            ("connected", "true"),
            ("healthy", "true"),
            ("maintenance", "false"),
            ("team", "db"),
            ("rack", "r7"),
        ])
    );
}

#[test]
fn capacity_gauges_carry_exact_byte_counts() {
    let out = project_allocators(&root_with(vec![], vec![]), 6000, 1000);
    assert_eq!(out[1].name, MetricName::AllocatorMemoryUsed);
    assert_eq!(out[1].value, GaugeValue::Count(17179869184));
    assert_eq!(out[2].name, MetricName::AllocatorMemoryTotal);
    assert_eq!(out[2].value, GaugeValue::Count(68719476736));
    assert_eq!(out[3].name, MetricName::AllocatorInstancesTotal);
    assert_eq!(out[3].value, GaugeValue::Count(0));
    assert_eq!(labels_of(&out[1]), pairs(&[("zone", "zone-a"), ("ip", "host-1.example")]));
}

#[test]
fn metadata_tags_replicated_onto_every_descendant_metric() {
    let tags = vec![KeyValue { key: "team".to_string(), value: "db".to_string() }];
    let out = project_allocators(&root_with(vec![full_instance()], tags), 6000, 1000);
    assert_eq!(out.len(), 8);
    for m in &out {
        let labels = labels_of(m);
        let last = labels.last().unwrap();
        assert_eq!(last, &("team".to_string(), "db".to_string()));
    }
}

#[test]
fn plan_labels_resolve_defaults() {
    let mut inst = full_instance();
    inst.plans_info = Some(PlansInfo { pending: false, version: None, zone_count: None });
    let out = project_allocators(&root_with(vec![inst], vec![]), 6000, 1000);
    let plan = out.iter().find(|m| m.name == MetricName::AllocatorInstancePlan).unwrap();
    assert_eq!(
        labels_of(plan),
        pairs(&[
            ("zone", "zone-a"),
            ("allocator", "host-1.example"),
            ("name", "logs"),
            ("pending", "false"),
            ("version", "0"),
            ("cluster_type", "elasticsearch"),
            ("zone_count", "0"),
        ])
    );
}

#[test]
fn plan_labels_carry_given_values() {
    let out = project_allocators(&root_with(vec![full_instance()], vec![]), 6000, 1000);
    let plan = out.iter().find(|m| m.name == MetricName::AllocatorInstancePlan).unwrap();
    assert_eq!(
        labels_of(plan),
        pairs(&[
            ("zone", "zone-a"),
            ("allocator", "host-1.example"),
            ("name", "logs"),
            ("pending", "true"),
            ("version", "7.17.0"),
            ("cluster_type", "elasticsearch"),
            ("zone_count", "3"),
        ])
    );
}

#[test]
fn empty_inventory_emits_nothing() {
    let out = project_allocators(&AllocatorsRoot { zones: vec![] }, 6000, 1000);
    assert!(out.is_empty());
    let proxies = project_proxies(&ProxiesRoot { proxies_count: 0, proxies: vec![] });
    assert!(proxies.is_empty());
}

#[test]
fn proxy_info_labels_and_ip_sentinel() {
    let root = ProxiesRoot {
        proxies_count: 2,
        proxies: vec![
            Proxy {
                proxy_id: "p1".to_string(),
                proxy_ip: Some("10.1.2.3".to_string()),
                public_hostname: "proxy-1.example".to_string(),
                healthy: true,
                zone: "zone-a".to_string(),
            },
            Proxy {
                proxy_id: "p2".to_string(),
                proxy_ip: None,
                public_hostname: "proxy-2.example".to_string(),
                healthy: false,
                zone: "zone-b".to_string(),
            },
        ],
    };
    let out = project_proxies(&root);
    assert_eq!(out.len(), 2);
    assert_eq!(out[0].name, MetricName::ProxyInfo);
    assert_eq!(out[0].value, GaugeValue::Count(1));
    assert_eq!(
        labels_of(&out[0]),
        pairs(&[
            ("zone", "zone-a"),
            ("hostname", "proxy-1.example"),
            ("proxy_id", "p1"),
            ("proxy_ip", "10.1.2.3"),
            ("healthy", "true"),
        ])
    );
    assert_eq!(
        labels_of(&out[1]),
        pairs(&[
            ("zone", "zone-b"),
            ("hostname", "proxy-2.example"),
            ("proxy_id", "p2"),
            ("proxy_ip", "null"),
            ("healthy", "false"),
        ])
    );
}

#[test]
fn projection_is_deterministic() {
    let tags = vec![KeyValue { key: "team".to_string(), value: "db".to_string() }];
    let build = || root_with(vec![full_instance(), bare_instance()], tags.clone());
    let a = project_allocators(&build(), 6000, 123456);
    let b = project_allocators(&build(), 6000, 123456);
    assert_eq!(a.len(), b.len());
    for (x, y) in a.iter().zip(b.iter()) {
        assert!(metric_eq(x, y));
    }
}
