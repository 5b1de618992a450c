use macfetch::formatter::{format_system_data, render_fact_lines, FactLabels};
use macfetch::ioreg::parse_ioreg_info;
use macfetch::layout::{ascii_art_lines, compose_rows, get_ascii_art_color, ArtColor};
use macfetch::snapshot::collect_snapshot;
use macfetch::systemctl::{parse_systemctl_info, SystemctlInfo};
use macfetch::whoami::WhoAmI;

fn sample_lines(host: &str) -> Vec<String> {
    vec![
        host,
        "MacBookPro18,3",
        "Intel(R) Core(TM) i7 CPU @ 2.6GHz",
        "8",
        "16",
        "17179869184",
        "Darwin Kernel Version 21.6.0: RELEASE_X86_64",
        "21.6.0",
        "{ sec = 1000, usec = 0 } Thu Jan 1 00:00:00 1970",
        "12.6",
        "21G115",
    ]
    .into_iter()
    .map(|s| s.to_string())
    .collect()
}

fn info(host: &str) -> SystemctlInfo {
    parse_systemctl_info(&sample_lines(host), 1000 + 3723).unwrap()
}

#[test]
fn separator_counts_characters() {
    let who = WhoAmI("al".to_string());
    let lines = render_fact_lines(
        &who,
        &info("host"),
        &parse_ioreg_info(""),
        &FactLabels::plain("al", "host"),
    );
    assert_eq!(lines[1], "-------");
    let who = WhoAmI("é".to_string());
    let lines = format_system_data(&who, &info("hôte"), &parse_ioreg_info(""));
    assert_eq!(lines[1], "------");
}

#[test]
fn plain_fact_lines() {
    let who = WhoAmI("al".to_string());
    let gpus = parse_ioreg_info("model\" = <\"A\" model\" = <\"B\"");
    let lines = render_fact_lines(&who, &info("host"), &gpus, &FactLabels::plain("al", "host"));
    let expected = vec![
        "al@host",
        "-------",
        "OS: macOS 12.6 21G115 X86_64",
        "Host: MacBookPro18,3",
        "Kernel: 21.6.0",
        "Uptime: 01:02:03",
        "CPU: Intel Core i7 @ 2.6GHz",
        "     8 physical, 16 logical cores",
        "GPU: A, B",
        "Memory: 16GB",
    ];
    assert_eq!(lines, expected);
}

#[test]
fn styled_fact_lines_keep_values() {
    let who = WhoAmI("al".to_string());
    let lines = format_system_data(&who, &info("host"), &parse_ioreg_info(""));
    assert_eq!(lines.len(), 10);
    assert!(lines[0].contains("al") && lines[0].contains("host"));
    assert!(lines[2].contains("OS") && lines[2].ends_with(": macOS 12.6 21G115 X86_64"));
    assert!(lines[5].ends_with(": 01:02:03"));
    assert_eq!(lines[7], "     8 physical, 16 logical cores");
    assert!(lines[8].ends_with("GPU: ") || lines[8].ends_with(": "));
    assert!(lines[9].ends_with(": 16GB"));
}

#[test]
fn layout_pads_short_facts() {
    let art = vec!["ab".to_string(), "c".to_string(), "d".to_string()];
    let facts = vec!["x".to_string(), "y".to_string()];
    let rows = compose_rows(&art, &facts);
    assert_eq!(rows.len(), 3);
    assert_eq!(rows[0].art, format!("ab{}", " ".repeat(31)));
    assert_eq!(rows[0].facts, "x");
    assert_eq!(rows[1].facts, "y");
    assert_eq!(rows[2].facts, "");
    assert_eq!(rows[2].art.chars().count(), 33);
}

#[test]
fn layout_truncates_long_facts() {
    let art = vec!["a".to_string()];
    let facts = vec!["x".to_string(), "y".to_string()];
    let rows = compose_rows(&art, &facts);
    assert_eq!(rows.len(), 1);
    assert_eq!(rows[0].facts, "x");
    let wide = "w".repeat(40);
    let rows = compose_rows(&vec![wide.clone()], &vec![]);
    assert_eq!(rows[0].art, wide);
    assert_eq!(rows[0].facts, "");
}

#[test]
fn logo_colors_by_line() {
    assert_eq!(ascii_art_lines().len(), 17);
    assert_eq!(get_ascii_art_color(0), ArtColor::BrightGreen);
    assert_eq!(get_ascii_art_color(5), ArtColor::BrightGreen);
    assert_eq!(get_ascii_art_color(6), ArtColor::BrightYellow);
    assert_eq!(get_ascii_art_color(7), ArtColor::BrightYellow);
    assert_eq!(get_ascii_art_color(8), ArtColor::BrightRed);
    assert_eq!(get_ascii_art_color(11), ArtColor::BrightRed);
    assert_eq!(get_ascii_art_color(12), ArtColor::BrightMagenta);
    assert_eq!(get_ascii_art_color(13), ArtColor::BrightMagenta);
    assert_eq!(get_ascii_art_color(14), ArtColor::BrightBlue);
    assert_eq!(get_ascii_art_color(16), ArtColor::BrightBlue);
}

#[test]
fn logo_beside_facts() {
    let who = WhoAmI("al".to_string());
    let facts = render_fact_lines(&who, &info("host"), &parse_ioreg_info(""), &FactLabels::plain("al", "host"));
    let rows = compose_rows(&ascii_art_lines(), &facts);
    assert_eq!(rows.len(), 17);
    assert_eq!(rows[9].facts, "Memory: 16GB");
    assert_eq!(rows[10].facts, "");
    assert_eq!(rows[16].facts, "");
}

#[test]
fn same_inputs_same_output() {
    let lines = sample_lines("host");
    let registry = "model\" = <\"AMD Radeon Pro 5500M\"";
    let a = collect_snapshot("al\n", "10.0.0.2\n", &lines, registry, 9000).unwrap();
    let b = collect_snapshot("al\n", "10.0.0.2\n", &lines, registry, 9000).unwrap();
    let la = render_fact_lines(&a.whoami, &a.systemctl_info, &a.ioreg_info, &FactLabels::plain("al", "host"));
    let lb = render_fact_lines(&b.whoami, &b.systemctl_info, &b.ioreg_info, &FactLabels::plain("al", "host"));
    assert_eq!(la, lb);
    assert_eq!(a.ipconfig.0, "10.0.0.2");
    assert_eq!(la[8], "GPU: AMD Radeon Pro 5500M");
    assert_eq!(la[5], "Uptime: 02:13:20");
}
