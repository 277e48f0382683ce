//! Flattening of the entity graph into gauge observations.
//!
//! The spec functions below state, entity by entity, exactly which
//! metrics one scrape emits, with which values and with which ordered
//! label sets; the executable projection is proved to produce exactly
//! that sequence. Everything is deterministic in the payload, the
//! configured unit cost and the elapsed month seconds.

use vstd::prelude::*;

use crate::allocator::Allocator;
use crate::allocator::AllocatorV;
use crate::allocator::AllocatorsRoot;
use crate::allocator::AllocatorsRootV;
use crate::allocator::InstanceV;
use crate::allocator::Instance;
use crate::allocator::KeyValue;
use crate::allocator::KeyValueV;
use crate::allocator::PlansInfoV;
use crate::allocator::Zone;
use crate::allocator::ZoneV;
use crate::cost::COST_DENOMINATOR;
use crate::cost::MAX_CENTS_NUMERATOR;
use crate::cost::cents_numerator;
use crate::cost::monthly_cost_numerator;
use crate::metric::GaugeValue;
use crate::metric::Metric;
use crate::metric::MetricName;
use crate::metric::MetricV;
use crate::metric::append_tags;
use crate::metric::bool_or_false;
use crate::metric::bool_or_null_str;
use crate::metric::kv;
use crate::metric::push_label;
use crate::metric::resolve_bool_or_false;
use crate::metric::resolve_bool_or_null;
use crate::metric::resolve_str_or_null;
use crate::metric::resolve_str_or_zero;
use crate::metric::resolve_u64_or_zero;
use crate::metric::str_or_null;
use crate::metric::str_or_zero;
use crate::metric::u64_or_zero;
use crate::proxy::ProxiesRoot;
use crate::proxy::ProxiesRootV;
use crate::proxy::Proxy;
use crate::proxy::ProxyV;
use crate::text::bool_str;
use crate::text::bool_to_string;
use crate::text::dec_str;
use crate::text::u64_to_string;

verus! {

/// The `u128` value of the cents-per-GB numerator of one scrape.
pub open spec fn scrape_cents(eru_cost: u64, seconds: u64) -> u128 {
    cents_numerator(eru_cost, seconds) as u128
}

/// Labels of `allocator_info`: fixed labels, then the metadata tags.
pub open spec fn allocator_info_labels(zone: Seq<char>, a: AllocatorV) -> Seq<KeyValueV> {
    seq![
        kv("zone"@, zone),
        kv("ip"@, a.public_hostname),
        kv("connected"@, bool_str(a.status.connected)),
        kv("healthy"@, bool_str(a.status.healthy)),
        kv("maintenance"@, bool_str(a.status.maintenance_mode)),
    ] + a.metadata
}

/// Labels shared by the allocator memory and instance-count gauges.
pub open spec fn allocator_capacity_labels(zone: Seq<char>, a: AllocatorV) -> Seq<KeyValueV> {
    seq![kv("zone"@, zone), kv("ip"@, a.public_hostname)] + a.metadata
}

/// The `allocator_info` observation (constant value 1).
pub open spec fn allocator_info_metric(zone: Seq<char>, a: AllocatorV) -> MetricV {
    MetricV {
        name: MetricName::AllocatorInfo,
        value: GaugeValue::Count(1),
        labels: allocator_info_labels(zone, a),
    }
}

/// The `allocator_memory_used` observation.
pub open spec fn allocator_memory_used_metric(zone: Seq<char>, a: AllocatorV) -> MetricV {
    MetricV {
        name: MetricName::AllocatorMemoryUsed,
        value: GaugeValue::Count(a.capacity.memory.used),
        labels: allocator_capacity_labels(zone, a),
    }
}

/// The `allocator_memory_total` observation.
pub open spec fn allocator_memory_total_metric(zone: Seq<char>, a: AllocatorV) -> MetricV {
    MetricV {
        name: MetricName::AllocatorMemoryTotal,
        value: GaugeValue::Count(a.capacity.memory.total),
        labels: allocator_capacity_labels(zone, a),
    }
}

/// The `allocator_instances_total` observation.
pub open spec fn allocator_instances_total_metric(zone: Seq<char>, a: AllocatorV) -> MetricV {
    MetricV {
        name: MetricName::AllocatorInstancesTotal,
        value: GaugeValue::Count(a.instances.len() as u64),
        labels: allocator_capacity_labels(zone, a),
    }
}

/// Labels of `allocator_instance_info`, sentinels already resolved.
pub open spec fn instance_info_labels(
    zone: Seq<char>,
    host: Seq<char>,
    tags: Seq<KeyValueV>,
    i: InstanceV,
) -> Seq<KeyValueV> {
    seq![
        kv("zone"@, zone),
        kv("ip"@, host),
        kv("name"@, str_or_null(i.cluster_name)),
        kv("cluster_type"@, i.cluster_type),
        kv("cluster_id"@, i.cluster_id),
        kv("configuration_id"@, i.instance_configuration_id),
        kv("deployment_id"@, str_or_null(i.deployment_id)),
        kv("healthy"@, bool_str(bool_or_false(i.healthy))),
        kv("cluster_healthy"@, bool_or_null_str(i.cluster_healthy)),
        kv("moving"@, bool_str(bool_or_false(i.moving))),
    ] + tags
}

/// Labels shared by the instance node-memory and monthly-cost gauges.
pub open spec fn instance_cost_labels(
    zone: Seq<char>,
    host: Seq<char>,
    tags: Seq<KeyValueV>,
    i: InstanceV,
) -> Seq<KeyValueV> {
    seq![
        kv("zone"@, zone),
        kv("ip"@, host),
        kv("name"@, str_or_null(i.cluster_name)),
        kv("cluster_type"@, i.cluster_type),
        kv("cluster_id"@, i.cluster_id),
    ] + tags
}

/// Labels of `allocator_instance_plan`.
pub open spec fn plan_labels(
    zone: Seq<char>,
    host: Seq<char>,
    tags: Seq<KeyValueV>,
    i: InstanceV,
    p: PlansInfoV,
) -> Seq<KeyValueV> {
    seq![
        kv("zone"@, zone),
        kv("allocator"@, host),
        kv("name"@, str_or_null(i.cluster_name)),
        kv("pending"@, bool_str(p.pending)),
        kv("version"@, str_or_zero(p.version)),
        kv("cluster_type"@, i.cluster_type),
        kv("zone_count"@, dec_str(u64_or_zero(p.zone_count) as nat)),
    ] + tags
}

/// The `allocator_instance_info` observation (constant value 1).
pub open spec fn instance_info_metric(
    zone: Seq<char>,
    host: Seq<char>,
    tags: Seq<KeyValueV>,
    i: InstanceV,
) -> MetricV {
    MetricV {
        name: MetricName::AllocatorInstanceInfo,
        value: GaugeValue::Count(1),
        labels: instance_info_labels(zone, host, tags, i),
    }
}

/// The `allocator_instance_node_memory` observation.
pub open spec fn instance_node_memory_metric(
    zone: Seq<char>,
    host: Seq<char>,
    tags: Seq<KeyValueV>,
    i: InstanceV,
) -> MetricV {
    MetricV {
        name: MetricName::AllocatorInstanceNodeMemory,
        value: GaugeValue::Count(i.node_memory),
        labels: instance_cost_labels(zone, host, tags, i),
    }
}

/// The `allocator_instance_monthly_cost` observation: the exact
/// rational `node_memory * cents / COST_DENOMINATOR`.
pub open spec fn instance_monthly_cost_metric(
    zone: Seq<char>,
    host: Seq<char>,
    tags: Seq<KeyValueV>,
    i: InstanceV,
    cents: u128,
) -> MetricV {
    MetricV {
        name: MetricName::AllocatorInstanceMonthlyCost,
        value: (GaugeValue::Ratio {
            num: (i.node_memory * cents) as u128,
            den: COST_DENOMINATOR,
        }),
        labels: instance_cost_labels(zone, host, tags, i),
    }
}

/// The `allocator_instance_plan` observation (constant value 1).
pub open spec fn plan_metric(
    zone: Seq<char>,
    host: Seq<char>,
    tags: Seq<KeyValueV>,
    i: InstanceV,
    p: PlansInfoV,
) -> MetricV {
    MetricV {
        name: MetricName::AllocatorInstancePlan,
        value: GaugeValue::Count(1),
        labels: plan_labels(zone, host, tags, i, p),
    }
}

/// Everything one instance emits: its info, node memory and monthly
/// cost, and — exactly when the instance carries plan information — one
/// plan observation. Absence of a plan emits nothing for that metric.
pub open spec fn instance_metrics(
    zone: Seq<char>,
    host: Seq<char>,
    tags: Seq<KeyValueV>,
    i: InstanceV,
    cents: u128,
) -> Seq<MetricV> {
    let base = seq![
        instance_info_metric(zone, host, tags, i),
        instance_node_memory_metric(zone, host, tags, i),
        instance_monthly_cost_metric(zone, host, tags, i, cents),
    ];
    match i.plans_info {
        Some(p) => base.push(plan_metric(zone, host, tags, i, p)),
        None => base,
    }
}

/// Everything a sequence of instances emits, in order.
pub open spec fn instances_metrics(
    zone: Seq<char>,
    host: Seq<char>,
    tags: Seq<KeyValueV>,
    instances: Seq<InstanceV>,
    cents: u128,
) -> Seq<MetricV>
    decreases instances.len(),
{
    if instances.len() == 0 {
        Seq::empty()
    } else {
        instances_metrics(zone, host, tags, instances.drop_last(), cents) + instance_metrics(
            zone,
            host,
            tags,
            instances.last(),
            cents,
        )
    }
}

/// Everything one allocator emits: four allocator-level gauges, then
/// its instances' gauges.
pub open spec fn allocator_metrics(zone: Seq<char>, a: AllocatorV, cents: u128) -> Seq<MetricV> {
    seq![
        allocator_info_metric(zone, a),
        allocator_memory_used_metric(zone, a),
        allocator_memory_total_metric(zone, a),
        allocator_instances_total_metric(zone, a),
    ] + instances_metrics(zone, a.public_hostname, a.metadata, a.instances, cents)
}

/// Everything a sequence of allocators emits, in order.
pub open spec fn allocators_metrics(
    zone: Seq<char>,
    allocators: Seq<AllocatorV>,
    cents: u128,
) -> Seq<MetricV>
    decreases allocators.len(),
{
    if allocators.len() == 0 {
        Seq::empty()
    } else {
        allocators_metrics(zone, allocators.drop_last(), cents) + allocator_metrics(
            zone,
            allocators.last(),
            cents,
        )
    }
}

/// Everything one zone emits.
pub open spec fn zone_metrics(z: ZoneV, cents: u128) -> Seq<MetricV> {
    allocators_metrics(z.zone_id, z.allocators, cents)
}

/// Everything a sequence of zones emits, in order.
pub open spec fn zones_metrics(zones: Seq<ZoneV>, cents: u128) -> Seq<MetricV>
    decreases zones.len(),
{
    if zones.len() == 0 {
        Seq::empty()
    } else {
        zones_metrics(zones.drop_last(), cents) + zone_metrics(zones.last(), cents)
    }
}

/// Everything one allocator inventory emits.
pub open spec fn allocator_root_metrics(root: AllocatorsRootV, cents: u128) -> Seq<MetricV> {
    zones_metrics(root.zones, cents)
}

/// The `proxy_info` observation of one proxy (constant value 1); an
/// absent proxy IP emits the literal label value `"null"`, never an
/// omitted label.
pub open spec fn proxy_metric(p: ProxyV) -> MetricV {
    MetricV {
        name: MetricName::ProxyInfo,
        value: GaugeValue::Count(1),
        labels: seq![
            kv("zone"@, p.zone),
            kv("hostname"@, p.public_hostname),
            kv("proxy_id"@, p.proxy_id),
            kv("proxy_ip"@, str_or_null(p.proxy_ip)),
            kv("healthy"@, bool_str(p.healthy)),
        ],
    }
}

/// Everything a sequence of proxies emits, in order.
pub open spec fn proxies_metrics(proxies: Seq<ProxyV>) -> Seq<MetricV>
    decreases proxies.len(),
{
    if proxies.len() == 0 {
        Seq::empty()
    } else {
        proxies_metrics(proxies.drop_last()).push(proxy_metric(proxies.last()))
    }
}

/// Everything one proxy inventory emits.
pub open spec fn proxies_root_metrics(root: ProxiesRootV) -> Seq<MetricV> {
    proxies_metrics(root.proxies)
}

fn instance_cost_label_vec(
    zone_id: &String,
    hostname: &String,
    tags: &Vec<KeyValue>,
    inst: &Instance,
) -> (r: Vec<KeyValue>)
    ensures
        r.deep_view() == instance_cost_labels(
            zone_id@,
            hostname@,
            tags.deep_view(),
            inst.deep_view(),
        ),
{
    let mut labels: Vec<KeyValue> = Vec::new();
    push_label(&mut labels, "zone", zone_id.clone());
    push_label(&mut labels, "ip", hostname.clone());
    push_label(&mut labels, "name", resolve_str_or_null(&inst.cluster_name));
    push_label(&mut labels, "cluster_type", inst.cluster_type.clone());
    push_label(&mut labels, "cluster_id", inst.cluster_id.clone());
    append_tags(&mut labels, tags);
    proof {
        assert(labels.deep_view() =~= instance_cost_labels(
            zone_id@,
            hostname@,
            tags.deep_view(),
            inst.deep_view(),
        ));
    }
    labels
}

/// Appends everything one instance emits.
fn project_instance(
    out: &mut Vec<Metric>,
    zone_id: &String,
    hostname: &String,
    tags: &Vec<KeyValue>,
    inst: &Instance,
    cents: u128,
)
    requires
        cents <= MAX_CENTS_NUMERATOR,
    ensures
        final(out).deep_view() == old(out).deep_view() + instance_metrics(
            zone_id@,
            hostname@,
            tags.deep_view(),
            inst.deep_view(),
            cents,
        ),
{
    let ghost zv = zone_id@;
    let ghost hv = hostname@;
    let ghost tv = tags.deep_view();
    let ghost iv = inst.deep_view();
    let ghost g0 = out.deep_view();

    let mut labels: Vec<KeyValue> = Vec::new();
    push_label(&mut labels, "zone", zone_id.clone());
    push_label(&mut labels, "ip", hostname.clone());
    push_label(&mut labels, "name", resolve_str_or_null(&inst.cluster_name));
    push_label(&mut labels, "cluster_type", inst.cluster_type.clone());
    push_label(&mut labels, "cluster_id", inst.cluster_id.clone());
    push_label(&mut labels, "configuration_id", inst.instance_configuration_id.clone());
    push_label(&mut labels, "deployment_id", resolve_str_or_null(&inst.deployment_id));
    push_label(&mut labels, "healthy", bool_to_string(resolve_bool_or_false(&inst.healthy)));
    push_label(&mut labels, "cluster_healthy", resolve_bool_or_null(&inst.cluster_healthy));
    push_label(&mut labels, "moving", bool_to_string(resolve_bool_or_false(&inst.moving)));
    append_tags(&mut labels, tags);
    proof {
        assert(labels.deep_view() =~= instance_info_labels(zv, hv, tv, iv));
    }
    let m = Metric {
        name: MetricName::AllocatorInstanceInfo,
        value: GaugeValue::Count(1),
        labels,
    };
    proof {
        assert(m.deep_view() == instance_info_metric(zv, hv, tv, iv));
    }
    out.push(m);
    proof {
        assert(out.deep_view() =~= g0.push(instance_info_metric(zv, hv, tv, iv)));
    }
    let ghost g1 = out.deep_view();

    let m = Metric {
        name: MetricName::AllocatorInstanceNodeMemory,
        value: GaugeValue::Count(inst.node_memory),
        labels: instance_cost_label_vec(zone_id, hostname, tags, inst),
    };
    proof {
        assert(m.deep_view() == instance_node_memory_metric(zv, hv, tv, iv));
    }
    out.push(m);
    proof {
        assert(out.deep_view() =~= g1.push(instance_node_memory_metric(zv, hv, tv, iv)));
    }
    let ghost g2 = out.deep_view();

    let num = monthly_cost_numerator(inst.node_memory, cents);
    let m = Metric {
        name: MetricName::AllocatorInstanceMonthlyCost,
        value: (GaugeValue::Ratio { num, den: COST_DENOMINATOR }),
        labels: instance_cost_label_vec(zone_id, hostname, tags, inst),
    };
    proof {
        assert(m.deep_view() == instance_monthly_cost_metric(zv, hv, tv, iv, cents));
    }
    out.push(m);
    proof {
        assert(out.deep_view() =~= g2.push(instance_monthly_cost_metric(zv, hv, tv, iv, cents)));
    }
    let ghost g3 = out.deep_view();

    match &inst.plans_info {
        Some(p) => {
            let ghost pv = p.deep_view();
            let mut labels: Vec<KeyValue> = Vec::new();
            push_label(&mut labels, "zone", zone_id.clone());
            push_label(&mut labels, "allocator", hostname.clone());
            push_label(&mut labels, "name", resolve_str_or_null(&inst.cluster_name));
            push_label(&mut labels, "pending", bool_to_string(p.pending));
            push_label(&mut labels, "version", resolve_str_or_zero(&p.version));
            push_label(&mut labels, "cluster_type", inst.cluster_type.clone());
            push_label(&mut labels, "zone_count", u64_to_string(resolve_u64_or_zero(&p.zone_count)));
            append_tags(&mut labels, tags);
            proof {
                assert(labels.deep_view() =~= plan_labels(zv, hv, tv, iv, pv));
            }
            let m = Metric { name: MetricName::AllocatorInstancePlan, value: GaugeValue::Count(1), labels };
            proof {
                assert(m.deep_view() == plan_metric(zv, hv, tv, iv, pv));
            }
            out.push(m);
            proof {
                assert(out.deep_view() =~= g3.push(plan_metric(zv, hv, tv, iv, pv)));
                assert(iv.plans_info == Some(pv));
                assert(out.deep_view() =~= g0 + instance_metrics(zv, hv, tv, iv, cents));
            }
        },
        None => {
            proof {
                assert(out.deep_view() =~= g0 + instance_metrics(zv, hv, tv, iv, cents));
            }
        },
    }
}

fn allocator_capacity_label_vec(zone_id: &String, alloc: &Allocator) -> (r: Vec<KeyValue>)
    ensures
        r.deep_view() == allocator_capacity_labels(zone_id@, alloc.deep_view()),
{
    let mut labels: Vec<KeyValue> = Vec::new();
    push_label(&mut labels, "zone", zone_id.clone());
    push_label(&mut labels, "ip", alloc.public_hostname.clone());
    append_tags(&mut labels, &alloc.metadata);
    proof {
        assert(labels.deep_view() =~= allocator_capacity_labels(zone_id@, alloc.deep_view()));
    }
    labels
}

/// Appends everything one allocator emits.
fn project_allocator(out: &mut Vec<Metric>, zone_id: &String, alloc: &Allocator, cents: u128)
    requires
        cents <= MAX_CENTS_NUMERATOR,
    ensures
        final(out).deep_view() == old(out).deep_view() + allocator_metrics(
            zone_id@,
            alloc.deep_view(),
            cents,
        ),
{
    let ghost zv = zone_id@;
    let ghost av = alloc.deep_view();
    let ghost g0 = out.deep_view();

    let mut labels: Vec<KeyValue> = Vec::new();
    push_label(&mut labels, "zone", zone_id.clone());
    push_label(&mut labels, "ip", alloc.public_hostname.clone());
    push_label(&mut labels, "connected", bool_to_string(alloc.status.connected));
    push_label(&mut labels, "healthy", bool_to_string(alloc.status.healthy));
    push_label(&mut labels, "maintenance", bool_to_string(alloc.status.maintenance_mode));
    append_tags(&mut labels, &alloc.metadata);
    proof {
        assert(labels.deep_view() =~= allocator_info_labels(zv, av));
    }
    let m = Metric { name: MetricName::AllocatorInfo, value: GaugeValue::Count(1), labels };
    proof {
        assert(m.deep_view() == allocator_info_metric(zv, av));
    }
    out.push(m);
    proof {
        assert(out.deep_view() =~= g0.push(allocator_info_metric(zv, av)));
    }
    let ghost g1 = out.deep_view();

    let m = Metric {
        name: MetricName::AllocatorMemoryUsed,
        value: GaugeValue::Count(alloc.capacity.memory.used),
        labels: allocator_capacity_label_vec(zone_id, alloc),
    };
    proof {
        assert(m.deep_view() == allocator_memory_used_metric(zv, av));
    }
    out.push(m);
    proof {
        assert(out.deep_view() =~= g1.push(allocator_memory_used_metric(zv, av)));
    }
    let ghost g2 = out.deep_view();

    let m = Metric {
        name: MetricName::AllocatorMemoryTotal,
        value: GaugeValue::Count(alloc.capacity.memory.total),
        labels: allocator_capacity_label_vec(zone_id, alloc),
    };
    proof {
        assert(m.deep_view() == allocator_memory_total_metric(zv, av));
    }
    out.push(m);
    proof {
        assert(out.deep_view() =~= g2.push(allocator_memory_total_metric(zv, av)));
    }
    let ghost g3 = out.deep_view();

    let m = Metric {
        name: MetricName::AllocatorInstancesTotal,
        value: GaugeValue::Count(alloc.instances.len() as u64),
        labels: allocator_capacity_label_vec(zone_id, alloc),
    };
    proof {
        assert(m.deep_view() == allocator_instances_total_metric(zv, av));
    }
    out.push(m);
    proof {
        assert(out.deep_view() =~= g3.push(allocator_instances_total_metric(zv, av)));
    }
    let ghost g4 = out.deep_view();

    let mut i: usize = 0;
    while i < alloc.instances.len()
        invariant
            cents <= MAX_CENTS_NUMERATOR,
            i <= alloc.instances.len(),
            av == alloc.deep_view(),
            zv == zone_id@,
            out.deep_view() == g4 + instances_metrics(
                zv,
                av.public_hostname,
                av.metadata,
                av.instances.take(i as int),
                cents,
            ),
        decreases alloc.instances.len() - i,
    {
        project_instance(out, zone_id, &alloc.public_hostname, &alloc.metadata, &alloc.instances[i], cents);
        proof {
            let taken = av.instances.take(i as int + 1);
            assert(taken.drop_last() =~= av.instances.take(i as int));
            assert(taken.last() == av.instances[i as int]);
            assert(alloc.instances[i as int].deep_view() == av.instances[i as int]);
            assert(out.deep_view() =~= g4 + instances_metrics(
                zv,
                av.public_hostname,
                av.metadata,
                taken,
                cents,
            ));
        }
        i = i + 1;
    }
    proof {
        assert(av.instances.take(alloc.instances.len() as int) =~= av.instances);
        assert(out.deep_view() =~= g0 + allocator_metrics(zv, av, cents));
    }
}

/// Appends everything one zone emits.
fn project_zone(out: &mut Vec<Metric>, zone: &Zone, cents: u128)
    requires
        cents <= MAX_CENTS_NUMERATOR,
    ensures
        final(out).deep_view() == old(out).deep_view() + zone_metrics(zone.deep_view(), cents),
{
    let ghost zv = zone.deep_view();
    let ghost g0 = out.deep_view();
    let mut i: usize = 0;
    while i < zone.allocators.len()
        invariant
            cents <= MAX_CENTS_NUMERATOR,
            i <= zone.allocators.len(),
            zv == zone.deep_view(),
            out.deep_view() == g0 + allocators_metrics(
                zv.zone_id,
                zv.allocators.take(i as int),
                cents,
            ),
        decreases zone.allocators.len() - i,
    {
        project_allocator(out, &zone.zone_id, &zone.allocators[i], cents);
        proof {
            let taken = zv.allocators.take(i as int + 1);
            assert(taken.drop_last() =~= zv.allocators.take(i as int));
            assert(taken.last() == zv.allocators[i as int]);
            assert(zone.allocators[i as int].deep_view() == zv.allocators[i as int]);
            assert(out.deep_view() =~= g0 + allocators_metrics(zv.zone_id, taken, cents));
        }
        i = i + 1;
    }
    proof {
        assert(zv.allocators.take(zone.allocators.len() as int) =~= zv.allocators);
    }
}

/// Projects a whole allocator inventory into the exact sequence of
/// gauge observations it emits, for the given unit cost and elapsed
/// month seconds.
pub fn project_allocators(root: &AllocatorsRoot, eru_cost: u64, seconds: u64) -> (out: Vec<Metric>)
    requires
        eru_cost <= crate::cost::MAX_ERU_COST,
        seconds <= crate::cost::MAX_MONTH_SECONDS,
    ensures
        out.deep_view() == allocator_root_metrics(
            root.deep_view(),
            scrape_cents(eru_cost, seconds),
        ),
{
    let cents = crate::cost::cents_per_gb_numerator(eru_cost, seconds);
    let ghost rv = root.deep_view();
    let mut out: Vec<Metric> = Vec::new();
    proof {
        assert(out.deep_view() =~= Seq::<MetricV>::empty());
    }
    let mut i: usize = 0;
    while i < root.zones.len()
        invariant
            cents <= MAX_CENTS_NUMERATOR,
            i <= root.zones.len(),
            rv == root.deep_view(),
            out.deep_view() == zones_metrics(rv.zones.take(i as int), cents),
        decreases root.zones.len() - i,
    {
        project_zone(&mut out, &root.zones[i], cents);
        proof {
            let taken = rv.zones.take(i as int + 1);
            assert(taken.drop_last() =~= rv.zones.take(i as int));
            assert(taken.last() == rv.zones[i as int]);
            assert(root.zones[i as int].deep_view() == rv.zones[i as int]);
            assert(out.deep_view() =~= zones_metrics(taken, cents));
        }
        i = i + 1;
    }
    proof {
        assert(rv.zones.take(root.zones.len() as int) =~= rv.zones);
    }
    out
}

/// Projects a whole proxy inventory into the exact sequence of gauge
/// observations it emits.
pub fn project_proxies(root: &ProxiesRoot) -> (out: Vec<Metric>)
    ensures
        out.deep_view() == proxies_root_metrics(root.deep_view()),
{
    let ghost rv = root.deep_view();
    let mut out: Vec<Metric> = Vec::new();
    proof {
        assert(out.deep_view() =~= Seq::<MetricV>::empty());
    }
    let mut i: usize = 0;
    while i < root.proxies.len()
        invariant
            i <= root.proxies.len(),
            rv == root.deep_view(),
            out.deep_view() == proxies_metrics(rv.proxies.take(i as int)),
        decreases root.proxies.len() - i,
    {
        let p = &root.proxies[i];
        let ghost pv = p.deep_view();
        let ghost g = out.deep_view();
        let mut labels: Vec<KeyValue> = Vec::new();
        push_label(&mut labels, "zone", p.zone.clone());
        push_label(&mut labels, "hostname", p.public_hostname.clone());
        push_label(&mut labels, "proxy_id", p.proxy_id.clone());
        push_label(&mut labels, "proxy_ip", resolve_str_or_null(&p.proxy_ip));
        push_label(&mut labels, "healthy", bool_to_string(p.healthy));
        proof {
            assert(labels.deep_view() =~= proxy_metric(pv).labels);
        }
        let m = Metric { name: MetricName::ProxyInfo, value: GaugeValue::Count(1), labels };
        proof {
            assert(m.deep_view() == proxy_metric(pv));
        }
        out.push(m);
        proof {
            let taken = rv.proxies.take(i as int + 1);
            assert(taken.drop_last() =~= rv.proxies.take(i as int));
            assert(taken.last() == rv.proxies[i as int]);
            assert(root.proxies[i as int].deep_view() == rv.proxies[i as int]);
            assert(out.deep_view() =~= g.push(proxy_metric(pv)));
            assert(out.deep_view() =~= proxies_metrics(taken));
        }
        i = i + 1;
    }
    proof {
        assert(rv.proxies.take(root.proxies.len() as int) =~= rv.proxies);
    }
    out
}

} // verus!
