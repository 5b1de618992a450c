use macfetch::error::CustomError;
use macfetch::systemctl::{parse_systemctl_info, systemctl_info_from_lines, SystemctlInfo};

fn sample_lines() -> Vec<String> {
    vec![
        "MyMac",
        "MacBookPro18,3",
        "Intel(R) Core(TM) i7 CPU @ 2.6GHz",
        "8",
        "16",
        "17179869184",
        "Darwin Kernel Version 21.6.0: root:xnu-8020.140.41~1/RELEASE_X86_64",
        "21.6.0",
        "{ sec = 1000, usec = 0 } Thu Jan 1 00:00:00 1970",
        "12.6",
        "21G115",
    ]
    .into_iter()
    .map(|s| s.to_string())
    .collect()
}

fn error_of(r: Result<SystemctlInfo, CustomError>) -> String {
    match r {
        Ok(_) => panic!("expected an error"),
        Err(e) => e.message().to_string(),
    }
}

#[test]
fn well_formed_facts_give_the_record() {
    let info = parse_systemctl_info(&sample_lines(), 1000 + 3723).unwrap();
    assert_eq!(info.hostname(), "MyMac");
    assert_eq!(info.hardware_model(), "MacBookPro18,3");
    assert_eq!(info.cpu_name(), "Intel Core i7 @ 2.6GHz");
    assert_eq!(info.physical_cores(), 8);
    assert_eq!(info.logical_cores(), 16);
    assert_eq!(info.memory_amount(), 16);
    assert_eq!(info.arch_type(), "X86_64");
    assert_eq!(info.kernel_version(), "21.6.0");
    assert_eq!(info.uptime(), "01:02:03");
    assert_eq!(info.macos_version(), "12.6");
    assert_eq!(info.macos_subversion(), "21G115");
}

#[test]
fn record_from_given_captures() {
    let info = systemctl_info_from_lines(
        &sample_lines(),
        Some("ARM64".to_string()),
        Some("50".to_string()),
        50 + 86400 + 59,
    )
    .unwrap();
    assert_eq!(info.arch_type(), "ARM64");
    assert_eq!(info.uptime(), "00:00:59");
}

#[test]
fn uptime_wraps_at_one_day() {
    let info = parse_systemctl_info(&sample_lines(), 1000 + 86400 + 86399).unwrap();
    assert_eq!(info.uptime(), "23:59:59");
    let info = parse_systemctl_info(&sample_lines(), 1000).unwrap();
    assert_eq!(info.uptime(), "00:00:00");
}

#[test]
fn missing_lines_name_the_field() {
    let expected = [
        "Failed to read hostname",
        "Failed to read hardware model",
        "Failed to read CPU name",
        "Failed to read CPU physical core count",
        "Failed to read CPU logical core count",
        "Failed to read memory amount",
        "Failed to read raw arch type",
        "Failed to read kernel version",
        "Failed to read raw uptime",
        "Failed to read macos version",
        "Failed to read macos subversion",
    ];
    for (k, message) in expected.iter().enumerate() {
        let lines: Vec<String> = sample_lines().into_iter().take(k).collect();
        assert_eq!(error_of(parse_systemctl_info(&lines, 5000)), *message);
    }
}

#[test]
fn unreadable_physical_cores() {
    let mut lines = sample_lines();
    lines[3] = "eight".to_string();
    assert_eq!(
        error_of(parse_systemctl_info(&lines, 5000)),
        "Failed to convert CPU physical core count to u8"
    );
    lines[3] = "256".to_string();
    assert_eq!(
        error_of(parse_systemctl_info(&lines, 5000)),
        "Failed to convert CPU physical core count to u8"
    );
}

#[test]
fn unreadable_logical_cores() {
    let mut lines = sample_lines();
    lines[4] = "-1".to_string();
    assert_eq!(
        error_of(parse_systemctl_info(&lines, 5000)),
        "Failed to convert CPU logical core count to u8"
    );
}

#[test]
fn unreadable_memory() {
    let mut lines = sample_lines();
    lines[5] = "18446744073709551616".to_string();
    assert_eq!(
        error_of(parse_systemctl_info(&lines, 5000)),
        "Failed to convert memory amount to u64"
    );
}

#[test]
fn memory_keeps_eight_bits() {
    let mut lines = sample_lines();
    lines[5] = "275951648768".to_string();
    assert_eq!(parse_systemctl_info(&lines, 5000).unwrap().memory_amount(), 1);
    lines[5] = "1073741823".to_string();
    assert_eq!(parse_systemctl_info(&lines, 5000).unwrap().memory_amount(), 0);
    lines[5] = "+2147483648".to_string();
    assert_eq!(parse_systemctl_info(&lines, 5000).unwrap().memory_amount(), 2);
}

#[test]
fn missing_release_suffix() {
    let mut lines = sample_lines();
    lines[6] = "Darwin Kernel Version 21.6.0".to_string();
    assert_eq!(error_of(parse_systemctl_info(&lines, 5000)), "Failed to read arch type");
}

#[test]
fn missing_boot_seconds() {
    let mut lines = sample_lines();
    lines[8] = "{ usec = 0 }".to_string();
    assert_eq!(error_of(parse_systemctl_info(&lines, 5000)), "Failed to read uptime");
}

#[test]
fn boot_seconds_beyond_u64() {
    let mut lines = sample_lines();
    lines[8] = "{ sec = 18446744073709551616, usec = 0 }".to_string();
    assert_eq!(
        error_of(parse_systemctl_info(&lines, 5000)),
        "Failed to convert uptime to u64"
    );
}

#[test]
fn boot_after_now() {
    assert_eq!(
        error_of(parse_systemctl_info(&sample_lines(), 999)),
        "Boot time is later than the current time"
    );
}

#[test]
fn cpu_marks_removed_in_order() {
    let mut lines = sample_lines();
    lines[2] = "Apple M1 (R)(TM) CPU CPU  x".to_string();
    let info = parse_systemctl_info(&lines, 5000).unwrap();
    assert_eq!(info.cpu_name(), "Apple M1   x");
}
