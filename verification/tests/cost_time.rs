//! The cost accrual formula and the month-position arithmetic, on
//! exact values.

use ece_exporter::allocator::AllocatorsRoot;
use ece_exporter::allocator::BuildInfo;
use ece_exporter::allocator::Capacity;
use ece_exporter::allocator::Instance;
use ece_exporter::allocator::Memory;
use ece_exporter::allocator::Status;
use ece_exporter::allocator::Zone;
use ece_exporter::collect::project_allocators;
use ece_exporter::cost::COST_DENOMINATOR;
use ece_exporter::cost::MAX_MONTH_SECONDS;
use ece_exporter::cost::cents_per_gb_numerator;
use ece_exporter::cost::monthly_cost_numerator;
use ece_exporter::metric::GaugeValue;
use ece_exporter::metric::MetricName;
use ece_exporter::text::bool_to_string;
use ece_exporter::text::u64_to_string;
use ece_exporter::time::MonthPosition;
use ece_exporter::time::current_month_seconds;
use ece_exporter::time::seconds_since_month_start;

fn one_instance_root(node_memory: u64) -> AllocatorsRoot {
    AllocatorsRoot {
        zones: vec![Zone {
            zone_id: "z".to_string(),
            allocators: vec![ece_exporter::allocator::Allocator {
                status: Status { connected: true, healthy: true, maintenance_mode: false },
                allocator_id: "a".to_string(),
                zone_id: "z".to_string(),
                host_ip: "10.0.0.1".to_string(),
                public_hostname: "h".to_string(),
                capacity: Capacity { memory: Memory { total: 1, used: 1 } },
                instances: vec![Instance {
                    cluster_type: "es".to_string(),
                    cluster_id: "c".to_string(),
                    cluster_name: None,
                    instance_name: "i".to_string(),
                    node_memory,
                    healthy: None,
                    cluster_healthy: None,
                    instance_configuration_id: "cfg".to_string(),
                    moving: None,
                    plans_info: None,
                    deployment_id: None,
                }],
                metadata: vec![],
                build_info: BuildInfo { commit_hash: "x".to_string(), version: "1".to_string() },
                features: vec![],
                external_links: vec![],
            }],
        }],
    }
}

fn cost_value(root: &AllocatorsRoot, eru_cost: u64, seconds: u64) -> (u128, u64) {
    let out = project_allocators(root, eru_cost, seconds);
    let cost = out
        .iter()
        .find(|m| m.name == MetricName::AllocatorInstanceMonthlyCost)
        .unwrap();
    match cost.value {
        GaugeValue::Ratio { num, den } => (num, den),
        GaugeValue::Count(_) => panic!("monthly cost must be a ratio"),
    }
}

#[test]
fn sixty_four_gb_at_hundred_cents_costs_exactly_hundred() {
    // 6000 * 100 * 5256 = 3_153_600_000, over 31_536_000 seconds per
    // year: exactly 100 cents per GB accrued this month.
    let cents = cents_per_gb_numerator(6000, 5256);
    assert_eq!(cents, 3_153_600_000);
    assert_eq!(cents, 100 * 31_536_000);
    // A 64 GB instance (65536 MB) at 100 cents per GB: exactly 100.
    let (num, den) = cost_value(&one_instance_root(65536), 6000, 5256);
    assert_eq!(den, COST_DENOMINATOR);
    assert_eq!(num, monthly_cost_numerator(65536, cents));
    assert_eq!(num, 100 * COST_DENOMINATOR as u128);
    assert_eq!(num % den as u128, 0);
    assert_eq!(num / den as u128, 100);
}

#[test]
fn cost_is_zero_at_month_start_whatever_the_memory() {
    let (num_small, _) = cost_value(&one_instance_root(1024), 6000, 0);
    let (num_large, _) = cost_value(&one_instance_root(u64::MAX), 6000, 0);
    assert_eq!(num_small, 0);
    assert_eq!(num_large, 0);
}

#[test]
fn cost_never_decreases_within_a_month() {
    let root = one_instance_root(4096);
    let mut previous: u128 = 0;
    for seconds in [0u64, 1, 59, 3600, 86400, 1_000_000, 2_678_399] {
        let (num, _) = cost_value(&root, 6000, seconds);
        assert!(num >= previous);
        previous = num;
    }
}

#[test]
fn node_memory_gauge_carries_raw_megabytes() {
    let out = project_allocators(&one_instance_root(4096), 6000, 1000);
    let mem = out
        .iter()
        .find(|m| m.name == MetricName::AllocatorInstanceNodeMemory)
        .unwrap();
    assert_eq!(mem.value, GaugeValue::Count(4096));
}

#[test]
fn month_position_arithmetic_is_exact() {
    let start = MonthPosition { day: 1, hour: 0, minute: 0, second: 0 };
    assert_eq!(seconds_since_month_start(&start), 0);
    let last = MonthPosition { day: 31, hour: 23, minute: 59, second: 59 };
    assert_eq!(seconds_since_month_start(&last), 2_678_399);
    let mid = MonthPosition { day: 15, hour: 12, minute: 30, second: 45 };
    assert_eq!(seconds_since_month_start(&mid), 14 * 86400 + 12 * 3600 + 30 * 60 + 45);
}

#[test]
fn clock_reading_stays_below_month_bound() {
    assert!(current_month_seconds() < MAX_MONTH_SECONDS);
}

#[test]
fn decimal_rendering_is_exact() {
    assert_eq!(u64_to_string(0), "0");
    assert_eq!(u64_to_string(7), "7");
    assert_eq!(u64_to_string(40960), "40960");
    assert_eq!(u64_to_string(u64::MAX), "18446744073709551615");
    assert_eq!(bool_to_string(true), "true");
    assert_eq!(bool_to_string(false), "false");
}
