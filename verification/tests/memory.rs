use host_metrics::memory::{memory_report, MemoryStats};

const GIB: u64 = 1024 * 1024 * 1024;

fn sample() -> MemoryStats {
    MemoryStats {
        total_memory: 16 * GIB,
        used_memory: 5 * GIB,
        free_memory: 2 * GIB,
        available_memory: 11 * GIB,
        total_swap: 4 * GIB,
        used_swap: GIB,
        free_swap: 3 * GIB,
    }
}

#[test]
fn memory_report_of_sixteen_gibibytes_gives_the_total_in_bytes() {
    let report = memory_report(&sample());
    assert_eq!(report["total_memory"].as_u64(), Some(17_179_869_184));
}

#[test]
fn memory_report_has_exactly_the_seven_counters() {
    let report = memory_report(&sample());
    let object = report.as_object().unwrap();
    assert_eq!(object.len(), 7);
    assert_eq!(object["total_memory"].as_u64(), Some(16 * GIB));
    assert_eq!(object["used_memory"].as_u64(), Some(5 * GIB));
    assert_eq!(object["free_memory"].as_u64(), Some(2 * GIB));
    assert_eq!(object["available_memory"].as_u64(), Some(11 * GIB));
    assert_eq!(object["total_swap"].as_u64(), Some(4 * GIB));
    assert_eq!(object["used_swap"].as_u64(), Some(GIB));
    assert_eq!(object["free_swap"].as_u64(), Some(3 * GIB));
}

#[test]
fn memory_report_text() {
    let stats = MemoryStats {
        total_memory: 7,
        used_memory: 6,
        free_memory: 5,
        available_memory: 4,
        total_swap: 3,
        used_swap: 2,
        free_swap: 1,
    };
    assert_eq!(
        serde_json::to_string(&memory_report(&stats)).unwrap(),
        r#"{"available_memory":4,"free_memory":5,"free_swap":1,"total_memory":7,"total_swap":3,"used_memory":6,"used_swap":2}"#
    );
}

#[test]
fn memory_report_keeps_the_largest_counters() {
    let stats = MemoryStats {
        total_memory: u64::MAX,
        used_memory: u64::MAX - 1,
        free_memory: 0,
        available_memory: 1,
        total_swap: u64::MAX,
        used_swap: 0,
        free_swap: u64::MAX,
    };
    let report = memory_report(&stats);
    assert_eq!(report["total_memory"].as_u64(), Some(u64::MAX));
    assert_eq!(report["used_memory"].as_u64(), Some(u64::MAX - 1));
    assert_eq!(report["free_memory"].as_u64(), Some(0));
    assert_eq!(report["free_swap"].as_u64(), Some(u64::MAX));
}

#[test]
fn memory_report_keeps_used_swap_within_total_swap() {
    let stats = sample();
    assert!(stats.used_swap <= stats.total_swap);
    let report = memory_report(&stats);
    assert!(report["used_swap"].as_u64().unwrap() <= report["total_swap"].as_u64().unwrap());
}

#[test]
fn memory_report_does_not_require_used_plus_free_within_total() {
    let stats = MemoryStats {
        total_memory: 10,
        used_memory: 8,
        free_memory: 5,
        available_memory: 2,
        total_swap: 0,
        used_swap: 0,
        free_swap: 0,
    };
    let report = memory_report(&stats);
    assert_eq!(report["used_memory"].as_u64(), Some(8));
    assert_eq!(report["free_memory"].as_u64(), Some(5));
}

#[test]
fn memory_report_of_the_host_gives_the_total_that_the_system_reports() {
    let mut system = sysinfo::System::new();
    system.refresh_memory();
    let stats = MemoryStats {
        total_memory: system.total_memory(),
        used_memory: 0,
        free_memory: system.free_memory(),
        available_memory: system.available_memory(),
        total_swap: system.total_swap(),
        used_swap: 0,
        free_swap: system.free_swap(),
    };
    let report = memory_report(&stats);
    let mut again = sysinfo::System::new();
    again.refresh_memory();
    assert_eq!(report["total_memory"].as_u64(), Some(again.total_memory()));
}

#[test]
fn memory_stats_are_plain_values() {
    let stats = sample();
    let copy = stats;
    assert_eq!(stats, copy);
    assert_ne!(stats, MemoryStats { used_swap: 0, ..stats });
}

#[test]
fn memory_reports_of_two_readings_do_not_mix() {
    let first = sample();
    let second = MemoryStats {
        total_memory: 1,
        used_memory: 2,
        free_memory: 3,
        available_memory: 4,
        total_swap: 5,
        used_swap: 6,
        free_swap: 7,
    };
    let first_report = memory_report(&first);
    let second_report = memory_report(&second);
    assert_eq!(first_report, memory_report(&first));
    for (name, one, other) in [
        ("total_memory", first.total_memory, second.total_memory),
        ("used_memory", first.used_memory, second.used_memory),
        ("free_memory", first.free_memory, second.free_memory),
        ("available_memory", first.available_memory, second.available_memory),
        ("total_swap", first.total_swap, second.total_swap),
        ("used_swap", first.used_swap, second.used_swap),
        ("free_swap", first.free_swap, second.free_swap),
    ] {
        assert_eq!(first_report[name].as_u64(), Some(one));
        assert_eq!(second_report[name].as_u64(), Some(other));
    }
}
