//! Gauge observations: metric names, exact gauge values, and label
//! sets, together with the sentinel-resolution policy for optional
//! fields ("never omit a label; substitute a documented placeholder").

use vstd::prelude::*;
use vstd::string::StringExecFns;

use crate::allocator::KeyValue;
use crate::allocator::KeyValueV;
use crate::text::bool_str;
use crate::text::bool_to_string;

verus! {

/// The name of one gauge in the exposition.
#[derive(Clone, Copy, PartialEq, Eq, Structural, Debug)]
pub enum MetricName {
    AllocatorInfo,
    AllocatorMemoryUsed,
    AllocatorMemoryTotal,
    AllocatorInstancesTotal,
    AllocatorInstanceInfo,
    AllocatorInstanceNodeMemory,
    AllocatorInstanceMonthlyCost,
    AllocatorInstancePlan,
    ProxyInfo,
}

impl DeepView for MetricName {
    type V = MetricName;

    open spec fn deep_view(&self) -> MetricName {
        *self
    }
}

impl MetricName {
    /// The string under which the gauge is registered at the sink.
    pub open spec fn rendered(self) -> Seq<char> {
        match self {
            MetricName::AllocatorInfo => "allocator_info"@,
            MetricName::AllocatorMemoryUsed => "allocator_memory_used"@,
            MetricName::AllocatorMemoryTotal => "allocator_memory_total"@,
            MetricName::AllocatorInstancesTotal => "allocator_instances_total"@,
            MetricName::AllocatorInstanceInfo => "allocator_instance_info"@,
            MetricName::AllocatorInstanceNodeMemory => "allocator_instance_node_memory"@,
            MetricName::AllocatorInstanceMonthlyCost => "allocator_instance_monthly_cost"@,
            MetricName::AllocatorInstancePlan => "allocator_instance_plan"@,
            MetricName::ProxyInfo => "proxy_info"@,
        }
    }

    /// Renders the name for the sink.
    pub fn text(&self) -> (r: &'static str)
        ensures
            r@ == self.rendered(),
    {
        match self {
            MetricName::AllocatorInfo => "allocator_info",
            MetricName::AllocatorMemoryUsed => "allocator_memory_used",
            MetricName::AllocatorMemoryTotal => "allocator_memory_total",
            MetricName::AllocatorInstancesTotal => "allocator_instances_total",
            MetricName::AllocatorInstanceInfo => "allocator_instance_info",
            MetricName::AllocatorInstanceNodeMemory => "allocator_instance_node_memory",
            MetricName::AllocatorInstanceMonthlyCost => "allocator_instance_monthly_cost",
            MetricName::AllocatorInstancePlan => "allocator_instance_plan",
            MetricName::ProxyInfo => "proxy_info",
        }
    }
}

/// The exact value of one gauge observation.
///
/// Counters, byte counts and flags are whole numbers; the monthly cost
/// is the exact rational `num / den`. The sink takes floating-point
/// values, so the caller converts at the emission boundary; keeping the
/// value exact here lets the cost formula be stated and proved over
/// integers.
#[derive(Clone, Copy, PartialEq, Eq, Structural, Debug)]
pub enum GaugeValue {
    Count(u64),
    Ratio { num: u128, den: u64 },
}

impl DeepView for GaugeValue {
    type V = GaugeValue;

    open spec fn deep_view(&self) -> GaugeValue {
        *self
    }
}

/// One gauge observation: a name, an exact value, and an ordered label
/// list (fixed labels first, then the allocator's metadata tags,
/// concatenated without override).
pub struct Metric {
    pub name: MetricName,
    pub value: GaugeValue,
    pub labels: Vec<KeyValue>,
}

/// Deep view of a [`Metric`].
pub struct MetricV {
    pub name: MetricName,
    pub value: GaugeValue,
    pub labels: Seq<KeyValueV>,
}

impl DeepView for Metric {
    type V = MetricV;

    open spec fn deep_view(&self) -> MetricV {
        MetricV { name: self.name, value: self.value, labels: self.labels.deep_view() }
    }
}

/// Label pair, spec side.
pub open spec fn kv(key: Seq<char>, value: Seq<char>) -> KeyValueV {
    KeyValueV { key, value }
}

/// A missing optional string turns into the literal label value
/// `"null"`, never an omitted label.
pub open spec fn str_or_null(o: Option<Seq<char>>) -> Seq<char> {
    match o {
        Some(s) => s,
        None => "null"@,
    }
}

/// A missing plan version turns into the literal label value `"0"`.
pub open spec fn str_or_zero(o: Option<Seq<char>>) -> Seq<char> {
    match o {
        Some(s) => s,
        None => "0"@,
    }
}

/// A missing tri-state health flag turns into the literal label value
/// `"null"`; a present one into its boolean word.
pub open spec fn bool_or_null_str(o: Option<bool>) -> Seq<char> {
    match o {
        Some(b) => bool_str(b),
        None => "null"@,
    }
}

/// A missing boolean flag defaults to `false`.
pub open spec fn bool_or_false(o: Option<bool>) -> bool {
    match o {
        Some(b) => b,
        None => false,
    }
}

/// Resolves an optional string label value to the `"null"` sentinel.
pub fn resolve_str_or_null(o: &Option<String>) -> (r: String)
    ensures
        r@ == str_or_null(o.deep_view()),
{
    match o {
        Some(s) => s.clone(),
        None => String::from_str("null"),
    }
}

/// Resolves an optional plan version to the `"0"` sentinel.
pub fn resolve_str_or_zero(o: &Option<String>) -> (r: String)
    ensures
        r@ == str_or_zero(o.deep_view()),
{
    match o {
        Some(s) => s.clone(),
        None => String::from_str("0"),
    }
}

/// Resolves a tri-state health flag to its label value.
pub fn resolve_bool_or_null(o: &Option<bool>) -> (r: String)
    ensures
        r@ == bool_or_null_str(*o),
{
    match o {
        Some(b) => bool_to_string(*b),
        None => String::from_str("null"),
    }
}

/// Resolves an optional boolean flag to its `false` default.
pub fn resolve_bool_or_false(o: &Option<bool>) -> (r: bool)
    ensures
        r == bool_or_false(*o),
{
    match o {
        Some(b) => *b,
        None => false,
    }
}

/// A missing zone count defaults to zero.
pub open spec fn u64_or_zero(o: Option<u64>) -> u64 {
    match o {
        Some(c) => c,
        None => 0,
    }
}

/// Resolves an optional zone count to its zero default.
pub fn resolve_u64_or_zero(o: &Option<u64>) -> (r: u64)
    ensures
        r == u64_or_zero(*o),
{
    match o {
        Some(c) => *c,
        None => 0,
    }
}

/// Appends one label.
pub fn push_label(labels: &mut Vec<KeyValue>, key: &str, value: String)
    ensures
        final(labels).deep_view() == old(labels).deep_view().push(kv(key@, value@)),
{
    let ghost value_view = value@;
    labels.push(KeyValue { key: String::from_str(key), value });
    proof {
        assert(labels.deep_view() =~= old(labels).deep_view().push(kv(key@, value_view)));
    }
}

/// Appends every metadata tag, in order, after the fixed labels.
pub fn append_tags(labels: &mut Vec<KeyValue>, tags: &Vec<KeyValue>)
    ensures
        final(labels).deep_view() == old(labels).deep_view() + tags.deep_view(),
{
    let mut i: usize = 0;
    while i < tags.len()
        invariant
            i <= tags.len(),
            labels.deep_view() == old(labels).deep_view() + tags.deep_view().take(i as int),
        decreases tags.len() - i,
    {
        let t = tags[i].duplicate();
        proof {
            assert(t.deep_view() == tags.deep_view()[i as int]);
        }
        let ghost pre = labels.deep_view();
        labels.push(t);
        proof {
            assert(tags.deep_view().take(i as int + 1) =~= tags.deep_view().take(i as int).push(
                tags.deep_view()[i as int],
            ));
            assert(labels.deep_view() =~= pre.push(t.deep_view()));
            assert(labels.deep_view() =~= old(labels).deep_view() + tags.deep_view().take(
                i as int + 1,
            ));
        }
        i = i + 1;
    }
    proof {
        assert(tags.deep_view().take(tags.len() as int) =~= tags.deep_view());
    }
}

} // verus!
