use host_metrics::process::{process_entry, process_report, ProcessRecord, ProcessStatus};

fn record(pid: u32, name: Option<&str>, status: ProcessStatus) -> ProcessRecord {
    ProcessRecord {
        pid,
        name: name.map(|path| path.to_string()),
        memory: 4096,
        cpu_usage: serde_json::Value::from(1.5),
        run_time: 77,
        status,
    }
}

#[test]
fn status_names() {
    assert_eq!(ProcessStatus::Idle.name(), "Idle");
    assert_eq!(ProcessStatus::Run.name(), "Run");
    assert_eq!(ProcessStatus::Sleep.name(), "Sleep");
    assert_eq!(ProcessStatus::Stop.name(), "Stop");
    assert_eq!(ProcessStatus::Zombie.name(), "Zombie");
    assert_eq!(ProcessStatus::Tracing.name(), "Tracing");
    assert_eq!(ProcessStatus::Dead.name(), "Dead");
    assert_eq!(ProcessStatus::Wakekill.name(), "Wakekill");
    assert_eq!(ProcessStatus::Waking.name(), "Waking");
    assert_eq!(ProcessStatus::Parked.name(), "Parked");
    assert_eq!(ProcessStatus::LockBlocked.name(), "LockBlocked");
    assert_eq!(ProcessStatus::UninterruptibleDiskSleep.name(), "UninterruptibleDiskSleep");
    assert_eq!(ProcessStatus::Unknown(0).name(), "Unknown(0)");
    assert_eq!(ProcessStatus::Unknown(17).name(), "Unknown(17)");
    assert_eq!(ProcessStatus::Unknown(u32::MAX).name(), "Unknown(4294967295)");
}

#[test]
fn status_names_are_those_that_the_system_library_prints() {
    let pairs = [
        (ProcessStatus::Idle, sysinfo::ProcessStatus::Idle),
        (ProcessStatus::Run, sysinfo::ProcessStatus::Run),
        (ProcessStatus::Sleep, sysinfo::ProcessStatus::Sleep),
        (ProcessStatus::Stop, sysinfo::ProcessStatus::Stop),
        (ProcessStatus::Zombie, sysinfo::ProcessStatus::Zombie),
        (ProcessStatus::Tracing, sysinfo::ProcessStatus::Tracing),
        (ProcessStatus::Dead, sysinfo::ProcessStatus::Dead),
        (ProcessStatus::Wakekill, sysinfo::ProcessStatus::Wakekill),
        (ProcessStatus::Waking, sysinfo::ProcessStatus::Waking),
        (ProcessStatus::Parked, sysinfo::ProcessStatus::Parked),
        (ProcessStatus::LockBlocked, sysinfo::ProcessStatus::LockBlocked),
        (
            ProcessStatus::UninterruptibleDiskSleep,
            sysinfo::ProcessStatus::UninterruptibleDiskSleep,
        ),
        (ProcessStatus::Unknown(0), sysinfo::ProcessStatus::Unknown(0)),
        (ProcessStatus::Unknown(305), sysinfo::ProcessStatus::Unknown(305)),
        (ProcessStatus::Unknown(u32::MAX), sysinfo::ProcessStatus::Unknown(u32::MAX)),
    ];
    for (ours, theirs) in pairs {
        assert_eq!(ours.name(), format!("{:?}", theirs));
    }
}

#[test]
fn process_entry_has_exactly_the_six_members() {
    let entry = process_entry(record(4242, Some("/usr/bin/cat"), ProcessStatus::Sleep));
    let object = entry.as_object().unwrap();
    assert_eq!(object.len(), 6);
    assert_eq!(object["pid"].as_str(), Some("4242"));
    assert_eq!(object["name"].as_str(), Some("/usr/bin/cat"));
    assert_eq!(object["memory"].as_u64(), Some(4096));
    assert_eq!(object["cpu_usage"].as_f64(), Some(1.5));
    assert_eq!(object["run_time"].as_u64(), Some(77));
    assert_eq!(object["status"].as_str(), Some("Sleep"));
}

#[test]
fn process_entry_without_a_path_has_the_placeholder_as_name() {
    let entry = process_entry(record(1, None, ProcessStatus::Run));
    assert_eq!(entry["name"].as_str(), Some("<unknown>"));
    assert!(entry["name"].is_string());
    assert_eq!(entry.as_object().unwrap().len(), 6);
}

#[test]
fn process_report_keeps_the_other_entries_beside_one_without_a_path() {
    let records = vec![
        record(1, Some("/sbin/init"), ProcessStatus::Sleep),
        record(2, None, ProcessStatus::Idle),
        record(3, Some(""), ProcessStatus::Run),
    ];
    let report = process_report(records);
    let entries = report["processes"].as_array().unwrap();
    assert_eq!(entries.len(), 3);
    assert_eq!(entries[0]["name"].as_str(), Some("/sbin/init"));
    assert_eq!(entries[1]["name"].as_str(), Some("<unknown>"));
    assert_eq!(entries[2]["name"].as_str(), Some(""));
    for entry in entries {
        assert_eq!(entry.as_object().unwrap().len(), 6);
    }
}

#[test]
fn process_entry_writes_the_pid_as_a_decimal_string() {
    assert_eq!(process_entry(record(0, None, ProcessStatus::Idle))["pid"].as_str(), Some("0"));
    assert_eq!(
        process_entry(record(u32::MAX, None, ProcessStatus::Idle))["pid"].as_str(),
        Some("4294967295")
    );
    let pid = sysinfo::Pid::from_u32(31337);
    assert_eq!(
        process_entry(record(pid.as_u32(), None, ProcessStatus::Idle))["pid"].as_str(),
        Some(pid.to_string().as_str())
    );
}

#[test]
fn process_entry_text() {
    let entry = process_entry(record(9, Some("/sbin/init"), ProcessStatus::Unknown(3)));
    assert_eq!(
        serde_json::to_string(&entry).unwrap(),
        r#"{"cpu_usage":1.5,"memory":4096,"name":"/sbin/init","pid":"9","run_time":77,"status":"Unknown(3)"}"#
    );
}

#[test]
fn process_report_lists_the_processes_in_order() {
    let records = vec![
        record(1, Some("/sbin/init"), ProcessStatus::Sleep),
        record(2, None, ProcessStatus::Idle),
        record(300, Some("/usr/bin/server"), ProcessStatus::Run),
    ];
    let report = process_report(records);
    assert_eq!(report.as_object().unwrap().len(), 1);
    let entries = report["processes"].as_array().unwrap();
    assert_eq!(entries.len(), 3);
    assert_eq!(entries[0]["pid"].as_str(), Some("1"));
    assert_eq!(entries[1]["pid"].as_str(), Some("2"));
    assert_eq!(entries[2]["pid"].as_str(), Some("300"));
    assert_eq!(entries[2]["status"].as_str(), Some("Run"));
}

#[test]
fn process_report_without_processes_has_an_empty_list() {
    let report = process_report(Vec::new());
    assert_eq!(serde_json::to_string(&report).unwrap(), r#"{"processes":[]}"#);
}

fn status_of(status: sysinfo::ProcessStatus) -> ProcessStatus {
    match status {
        sysinfo::ProcessStatus::Idle => ProcessStatus::Idle,
        sysinfo::ProcessStatus::Run => ProcessStatus::Run,
        sysinfo::ProcessStatus::Sleep => ProcessStatus::Sleep,
        sysinfo::ProcessStatus::Stop => ProcessStatus::Stop,
        sysinfo::ProcessStatus::Zombie => ProcessStatus::Zombie,
        sysinfo::ProcessStatus::Tracing => ProcessStatus::Tracing,
        sysinfo::ProcessStatus::Dead => ProcessStatus::Dead,
        sysinfo::ProcessStatus::Wakekill => ProcessStatus::Wakekill,
        sysinfo::ProcessStatus::Waking => ProcessStatus::Waking,
        sysinfo::ProcessStatus::Parked => ProcessStatus::Parked,
        sysinfo::ProcessStatus::LockBlocked => ProcessStatus::LockBlocked,
        sysinfo::ProcessStatus::UninterruptibleDiskSleep => ProcessStatus::UninterruptibleDiskSleep,
        sysinfo::ProcessStatus::Unknown(code) => ProcessStatus::Unknown(code),
    }
}

#[test]
fn process_report_of_the_host_lists_at_least_this_process() {
    let mut system = sysinfo::System::new();
    system.refresh_all();
    let records: Vec<ProcessRecord> = system
        .processes()
        .iter()
        .map(|(pid, process)| ProcessRecord {
            pid: pid.as_u32(),
            name: process.exe().map(|path| path.to_string_lossy().into_owned()),
            memory: process.memory(),
            cpu_usage: serde_json::Value::from(process.cpu_usage()),
            run_time: process.run_time(),
            status: status_of(process.status()),
        })
        .collect();
    let expected: Vec<(String, String)> = system
        .processes()
        .iter()
        .map(|(pid, process)| (pid.to_string(), format!("{:?}", process.status())))
        .collect();
    let report = process_report(records);
    let entries = report["processes"].as_array().unwrap();
    assert!(entries.len() >= 1);
    assert_eq!(entries.len(), expected.len());
    for (entry, (pid, status)) in entries.iter().zip(&expected) {
        assert!(entry["name"].is_string());
        assert_eq!(entry["pid"].as_str(), Some(pid.as_str()));
        assert_eq!(entry["status"].as_str(), Some(status.as_str()));
    }
}
