//! Laws of the projection, stated and proved over the same spec
//! functions the executable contracts use: exact emission counts per
//! entity, the sentinel policy for absent fields, and determinism of a
//! whole scrape in its inputs.

use vstd::prelude::*;

use crate::allocator::AllocatorV;
use crate::allocator::AllocatorsRootV;
use crate::allocator::InstanceV;
use crate::allocator::KeyValueV;
use crate::allocator::ZoneV;
use crate::collect::allocator_metrics;
use crate::collect::allocator_root_metrics;
use crate::collect::allocators_metrics;
use crate::collect::instance_info_labels;
use crate::collect::instance_metrics;
use crate::collect::instances_metrics;
use crate::collect::proxies_root_metrics;
use crate::collect::proxy_metric;
use crate::collect::zone_metrics;
use crate::collect::zones_metrics;
use crate::metric::MetricName;
use crate::metric::MetricV;
use crate::metric::kv;
use crate::proxy::ProxiesRootV;
use crate::proxy::ProxyV;

verus! {

/// How many emitted observations carry the given metric name.
pub open spec fn count_name(s: Seq<MetricV>, n: MetricName) -> nat
    decreases s.len(),
{
    if s.len() == 0 {
        0
    } else {
        count_name(s.drop_last(), n) + (if s.last().name == n {
            1nat
        } else {
            0nat
        })
    }
}

/// Counting a name distributes over concatenation.
pub proof fn lemma_count_name_add(a: Seq<MetricV>, b: Seq<MetricV>, n: MetricName)
    ensures
        count_name(a + b, n) == count_name(a, n) + count_name(b, n),
    decreases b.len(),
{
    if b.len() == 0 {
        assert(a + b =~= a);
    } else {
        lemma_count_name_add(a, b.drop_last(), n);
        assert((a + b).drop_last() =~= a + b.drop_last());
        assert((a + b).last() == b.last());
    }
}

proof fn lemma_count_name_push(s: Seq<MetricV>, m: MetricV, n: MetricName)
    ensures
        count_name(s.push(m), n) == count_name(s, n) + (if m.name == n {
            1nat
        } else {
            0nat
        }),
{
    assert(s.push(m).drop_last() =~= s);
    assert(s.push(m).last() == m);
}

/// How many allocators an inventory lists, over all zones.
pub open spec fn total_allocators(zones: Seq<ZoneV>) -> nat
    decreases zones.len(),
{
    if zones.len() == 0 {
        0
    } else {
        total_allocators(zones.drop_last()) + zones.last().allocators.len()
    }
}

/// How many instances a sequence of allocators hosts.
pub open spec fn instances_in_allocators(allocators: Seq<AllocatorV>) -> nat
    decreases allocators.len(),
{
    if allocators.len() == 0 {
        0
    } else {
        instances_in_allocators(allocators.drop_last()) + allocators.last().instances.len()
    }
}

/// How many instances an inventory hosts, over all zones.
pub open spec fn total_instances(zones: Seq<ZoneV>) -> nat
    decreases zones.len(),
{
    if zones.len() == 0 {
        0
    } else {
        total_instances(zones.drop_last()) + instances_in_allocators(zones.last().allocators)
    }
}

/// Whether one instance carries plan information.
pub open spec fn has_plan(i: InstanceV) -> nat {
    if i.plans_info is Some {
        1nat
    } else {
        0nat
    }
}

/// How many instances in a sequence carry plan information.
pub open spec fn planned_in_instances(instances: Seq<InstanceV>) -> nat
    decreases instances.len(),
{
    if instances.len() == 0 {
        0
    } else {
        planned_in_instances(instances.drop_last()) + has_plan(instances.last())
    }
}

/// How many instances a sequence of allocators hosts that carry plan
/// information.
pub open spec fn planned_in_allocators(allocators: Seq<AllocatorV>) -> nat
    decreases allocators.len(),
{
    if allocators.len() == 0 {
        0
    } else {
        planned_in_allocators(allocators.drop_last()) + planned_in_instances(
            allocators.last().instances,
        )
    }
}

/// How many instances an inventory hosts that carry plan information.
pub open spec fn total_planned(zones: Seq<ZoneV>) -> nat
    decreases zones.len(),
{
    if zones.len() == 0 {
        0
    } else {
        total_planned(zones.drop_last()) + planned_in_allocators(zones.last().allocators)
    }
}

/// The per-allocator and per-instance counts of one emission sequence
/// all at once; carried through every level of the induction.
pub open spec fn counts_are(
    s: Seq<MetricV>,
    allocators: nat,
    instances: nat,
    planned: nat,
) -> bool {
    &&& count_name(s, MetricName::AllocatorInfo) == allocators
    &&& count_name(s, MetricName::AllocatorMemoryUsed) == allocators
    &&& count_name(s, MetricName::AllocatorMemoryTotal) == allocators
    &&& count_name(s, MetricName::AllocatorInstancesTotal) == allocators
    &&& count_name(s, MetricName::AllocatorInstanceInfo) == instances
    &&& count_name(s, MetricName::AllocatorInstanceNodeMemory) == instances
    &&& count_name(s, MetricName::AllocatorInstanceMonthlyCost) == instances
    &&& count_name(s, MetricName::AllocatorInstancePlan) == planned
}

proof fn lemma_instance_counts(
    zone: Seq<char>,
    host: Seq<char>,
    tags: Seq<KeyValueV>,
    i: InstanceV,
    cents: u128,
)
    ensures
        counts_are(instance_metrics(zone, host, tags, i, cents), 0, 1, has_plan(i)),
{
    let s = instance_metrics(zone, host, tags, i, cents);
    let m0 = crate::collect::instance_info_metric(zone, host, tags, i);
    let m1 = crate::collect::instance_node_memory_metric(zone, host, tags, i);
    let m2 = crate::collect::instance_monthly_cost_metric(zone, host, tags, i, cents);
    let base = seq![m0, m1, m2];
    assert(base =~= Seq::<MetricV>::empty().push(m0).push(m1).push(m2));
    assert forall|n: MetricName|
        count_name(base, n) == (if m0.name == n {
            1nat
        } else {
            0nat
        }) + (if m1.name == n {
            1nat
        } else {
            0nat
        }) + (if m2.name == n {
            1nat
        } else {
            0nat
        }) by {
        lemma_count_name_push(Seq::<MetricV>::empty(), m0, n);
        lemma_count_name_push(Seq::<MetricV>::empty().push(m0), m1, n);
        lemma_count_name_push(Seq::<MetricV>::empty().push(m0).push(m1), m2, n);
    }
    match i.plans_info {
        Some(p) => {
            let m3 = crate::collect::plan_metric(zone, host, tags, i, p);
            assert(s == base.push(m3));
            assert forall|n: MetricName|
                count_name(s, n) == count_name(base, n) + (if m3.name == n {
                    1nat
                } else {
                    0nat
                }) by {
                lemma_count_name_push(base, m3, n);
            }
        },
        None => {
            assert(s == base);
        },
    }
}

proof fn lemma_instances_counts(
    zone: Seq<char>,
    host: Seq<char>,
    tags: Seq<KeyValueV>,
    instances: Seq<InstanceV>,
    cents: u128,
)
    ensures
        counts_are(
            instances_metrics(zone, host, tags, instances, cents),
            0,
            instances.len(),
            planned_in_instances(instances),
        ),
    decreases instances.len(),
{
    if instances.len() > 0 {
        lemma_instances_counts(zone, host, tags, instances.drop_last(), cents);
        lemma_instance_counts(zone, host, tags, instances.last(), cents);
        let a = instances_metrics(zone, host, tags, instances.drop_last(), cents);
        let b = instance_metrics(zone, host, tags, instances.last(), cents);
        lemma_count_name_add(a, b, MetricName::AllocatorInfo);
        lemma_count_name_add(a, b, MetricName::AllocatorMemoryUsed);
        lemma_count_name_add(a, b, MetricName::AllocatorMemoryTotal);
        lemma_count_name_add(a, b, MetricName::AllocatorInstancesTotal);
        lemma_count_name_add(a, b, MetricName::AllocatorInstanceInfo);
        lemma_count_name_add(a, b, MetricName::AllocatorInstanceNodeMemory);
        lemma_count_name_add(a, b, MetricName::AllocatorInstanceMonthlyCost);
        lemma_count_name_add(a, b, MetricName::AllocatorInstancePlan);
    }
}

proof fn lemma_allocator_counts(zone: Seq<char>, a: AllocatorV, cents: u128)
    ensures
        counts_are(
            allocator_metrics(zone, a, cents),
            1,
            a.instances.len(),
            planned_in_instances(a.instances),
        ),
{
    let m0 = crate::collect::allocator_info_metric(zone, a);
    let m1 = crate::collect::allocator_memory_used_metric(zone, a);
    let m2 = crate::collect::allocator_memory_total_metric(zone, a);
    let m3 = crate::collect::allocator_instances_total_metric(zone, a);
    let head = seq![m0, m1, m2, m3];
    assert(head =~= Seq::<MetricV>::empty().push(m0).push(m1).push(m2).push(m3));
    assert forall|n: MetricName|
        count_name(head, n) == (if m0.name == n {
            1nat
        } else {
            0nat
        }) + (if m1.name == n {
            1nat
        } else {
            0nat
        }) + (if m2.name == n {
            1nat
        } else {
            0nat
        }) + (if m3.name == n {
            1nat
        } else {
            0nat
        }) by {
        lemma_count_name_push(Seq::<MetricV>::empty(), m0, n);
        lemma_count_name_push(Seq::<MetricV>::empty().push(m0), m1, n);
        lemma_count_name_push(Seq::<MetricV>::empty().push(m0).push(m1), m2, n);
        lemma_count_name_push(Seq::<MetricV>::empty().push(m0).push(m1).push(m2), m3, n);
    }
    let tail = instances_metrics(zone, a.public_hostname, a.metadata, a.instances, cents);
    lemma_instances_counts(zone, a.public_hostname, a.metadata, a.instances, cents);
    lemma_count_name_add(head, tail, MetricName::AllocatorInfo);
    lemma_count_name_add(head, tail, MetricName::AllocatorMemoryUsed);
    lemma_count_name_add(head, tail, MetricName::AllocatorMemoryTotal);
    lemma_count_name_add(head, tail, MetricName::AllocatorInstancesTotal);
    lemma_count_name_add(head, tail, MetricName::AllocatorInstanceInfo);
    lemma_count_name_add(head, tail, MetricName::AllocatorInstanceNodeMemory);
    lemma_count_name_add(head, tail, MetricName::AllocatorInstanceMonthlyCost);
    lemma_count_name_add(head, tail, MetricName::AllocatorInstancePlan);
}

proof fn lemma_allocators_counts(zone: Seq<char>, allocators: Seq<AllocatorV>, cents: u128)
    ensures
        counts_are(
            allocators_metrics(zone, allocators, cents),
            allocators.len(),
            instances_in_allocators(allocators),
            planned_in_allocators(allocators),
        ),
    decreases allocators.len(),
{
    if allocators.len() > 0 {
        lemma_allocators_counts(zone, allocators.drop_last(), cents);
        lemma_allocator_counts(zone, allocators.last(), cents);
        let a = allocators_metrics(zone, allocators.drop_last(), cents);
        let b = allocator_metrics(zone, allocators.last(), cents);
        lemma_count_name_add(a, b, MetricName::AllocatorInfo);
        lemma_count_name_add(a, b, MetricName::AllocatorMemoryUsed);
        lemma_count_name_add(a, b, MetricName::AllocatorMemoryTotal);
        lemma_count_name_add(a, b, MetricName::AllocatorInstancesTotal);
        lemma_count_name_add(a, b, MetricName::AllocatorInstanceInfo);
        lemma_count_name_add(a, b, MetricName::AllocatorInstanceNodeMemory);
        lemma_count_name_add(a, b, MetricName::AllocatorInstanceMonthlyCost);
        lemma_count_name_add(a, b, MetricName::AllocatorInstancePlan);
    }
}

proof fn lemma_zones_counts(zones: Seq<ZoneV>, cents: u128)
    ensures
        counts_are(
            zones_metrics(zones, cents),
            total_allocators(zones),
            total_instances(zones),
            total_planned(zones),
        ),
    decreases zones.len(),
{
    if zones.len() > 0 {
        lemma_zones_counts(zones.drop_last(), cents);
        lemma_allocators_counts(zones.last().zone_id, zones.last().allocators, cents);
        let a = zones_metrics(zones.drop_last(), cents);
        let b = zone_metrics(zones.last(), cents);
        lemma_count_name_add(a, b, MetricName::AllocatorInfo);
        lemma_count_name_add(a, b, MetricName::AllocatorMemoryUsed);
        lemma_count_name_add(a, b, MetricName::AllocatorMemoryTotal);
        lemma_count_name_add(a, b, MetricName::AllocatorInstancesTotal);
        lemma_count_name_add(a, b, MetricName::AllocatorInstanceInfo);
        lemma_count_name_add(a, b, MetricName::AllocatorInstanceNodeMemory);
        lemma_count_name_add(a, b, MetricName::AllocatorInstanceMonthlyCost);
        lemma_count_name_add(a, b, MetricName::AllocatorInstancePlan);
    }
}

/// Law: projecting an allocator inventory emits exactly one
/// `allocator_info`, `allocator_memory_used`, `allocator_memory_total`
/// and `allocator_instances_total` observation per allocator, exactly
/// one `allocator_instance_info`, `allocator_instance_node_memory` and
/// `allocator_instance_monthly_cost` observation per instance, and one
/// `allocator_instance_plan` observation exactly for each instance that
/// carries plan information — never a zero-filled plan observation.
pub proof fn lemma_emission_counts(root: AllocatorsRootV, cents: u128)
    ensures
        counts_are(
            allocator_root_metrics(root, cents),
            total_allocators(root.zones),
            total_instances(root.zones),
            total_planned(root.zones),
        ),
{
    lemma_zones_counts(root.zones, cents);
}

/// Law: absent optional instance fields never drop a label; they map
/// to the documented sentinels — a missing cluster name or deployment
/// id to the string `"null"`, a missing health or moving flag to
/// `false`, a missing cluster health to the string `"null"`.
pub proof fn lemma_instance_sentinels(
    zone: Seq<char>,
    host: Seq<char>,
    tags: Seq<KeyValueV>,
    i: InstanceV,
)
    ensures
        instance_info_labels(zone, host, tags, i).len() == 10 + tags.len(),
        i.cluster_name is None ==> instance_info_labels(zone, host, tags, i)[2] == kv(
            "name"@,
            "null"@,
        ),
        i.deployment_id is None ==> instance_info_labels(zone, host, tags, i)[6] == kv(
            "deployment_id"@,
            "null"@,
        ),
        i.healthy is None ==> instance_info_labels(zone, host, tags, i)[7] == kv(
            "healthy"@,
            "false"@,
        ),
        i.cluster_healthy is None ==> instance_info_labels(zone, host, tags, i)[8] == kv(
            "cluster_healthy"@,
            "null"@,
        ),
        i.moving is None ==> instance_info_labels(zone, host, tags, i)[9] == kv(
            "moving"@,
            "false"@,
        ),
{
}

/// Law: a proxy always emits a `proxy_ip` label — an absent proxy IP
/// becomes the literal value `"null"`, never an omitted label — and
/// the label set of `proxy_info` is exactly the five fixed labels.
pub proof fn lemma_proxy_ip_sentinel(p: ProxyV)
    ensures
        proxy_metric(p).labels.len() == 5,
        proxy_metric(p).labels[3].key == "proxy_ip"@,
        p.proxy_ip is None ==> proxy_metric(p).labels[3] == kv("proxy_ip"@, "null"@),
{
}

/// Law: a scrape is deterministic in its inputs — equal payloads under
/// an equal cents numerator project to equal observation sequences, on
/// both resources; re-projecting the same decoded payload twice can
/// never differ. (The executable projections are in turn pinned to
/// these spec functions by their contracts, which rule out any hidden
/// state or randomness.)
pub proof fn lemma_projection_deterministic(
    r1: AllocatorsRootV,
    r2: AllocatorsRootV,
    p1: ProxiesRootV,
    p2: ProxiesRootV,
    cents: u128,
)
    requires
        r1 == r2,
        p1 == p2,
    ensures
        allocator_root_metrics(r1, cents) == allocator_root_metrics(r2, cents),
        proxies_root_metrics(p1) == proxies_root_metrics(p2),
{
}

} // verus!
