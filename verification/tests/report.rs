use sysreport::banner::make_banner;
use sysreport::clock::format_timestamp;
use sysreport::facts::{DiskFact, HostFacts};
use sysreport::numerals::format_count;
use sysreport::render::{render_line, render_parts, render_report};
use sysreport::report::{assemble_report, Field, Report, ReportError};
use sysreport::sizes::{format_size, format_size_pair};

fn sample_facts() -> HostFacts {
    HostFacts {
        hostname: Some(String::from("box1")),
        system_name: Some(String::from("Linux")),
        distribution_id: String::from("debian"),
        kernel_version: Some(String::from("6.1.0")),
        os_version: Some(String::from("12")),
        used_memory: 2_000_000_000,
        total_memory: 8_000_000_000,
        used_swap: 0,
        total_swap: 0,
        boot_time: 0,
        terminal: Some((80, 24)),
        local_ip: Some(String::from("192.168.1.5")),
        cpu_count: 4,
        process_count: 120,
        disks: vec![DiskFact {
            name: String::from("root"),
            available: 50_000_000_000,
            total: 100_000_000_000,
        }],
    }
}

fn pairs(report: &Report) -> Vec<(String, String)> {
    report
        .fields
        .iter()
        .map(|f| (f.label.clone(), f.value.clone()))
        .collect()
}

#[test]
fn format_size_si_values() {
    assert_eq!(format_size(1_000), "1.0 kB");
    assert_eq!(format_size(1_500_000), "1.5 MB");
    assert_eq!(format_size(0), "0 B");
}

#[test]
fn format_size_more_si_values() {
    assert_eq!(format_size(999), "999 B");
    assert_eq!(format_size(2_000_000_000), "2.0 GB");
    assert_eq!(format_size(1_536_000), "1.5 MB");
}

#[test]
fn format_size_pair_is_slash_separated() {
    assert_eq!(format_size_pair(0, 0), "0 B/0 B");
    assert_eq!(
        format_size_pair(2_000_000_000, 8_000_000_000),
        "2.0 GB/8.0 GB"
    );
}

#[test]
fn format_timestamp_epoch_zero() {
    assert_eq!(format_timestamp(0), "1970-01-01 00:00:00.000000");
}

#[test]
fn format_timestamp_known_moment() {
    assert_eq!(format_timestamp(1_431_648_000), "2015-05-15 00:00:00.000000");
}

#[test]
fn format_count_decimal() {
    assert_eq!(format_count(0), "0");
    assert_eq!(format_count(4), "4");
    assert_eq!(format_count(120), "120");
    assert_eq!(format_count(u64::MAX), "18446744073709551615");
}

#[test]
fn report_has_twelve_fields_plus_disks() {
    let facts = sample_facts();
    let report = assemble_report(&facts).expect("assembly should succeed");
    assert_eq!(report.fields.len(), 12 + facts.disks.len());

    let no_disks = HostFacts {
        disks: Vec::new(),
        ..sample_facts()
    };
    let report = assemble_report(&no_disks).expect("assembly should succeed");
    assert_eq!(report.fields.len(), 12);
}

#[test]
fn report_fixed_order() {
    let report = assemble_report(&sample_facts()).expect("assembly should succeed");
    let labels: Vec<&str> = report.fields.iter().map(|f| f.label.as_str()).collect();
    assert_eq!(
        labels,
        vec![
            "Hostname",
            "System Name",
            "Distribution",
            "Kernel version",
            "OS version",
            "RAM",
            "Swap",
            "UpTime",
            "Resolution",
            "IP",
            "CPUs",
            "Processes",
            "root",
        ]
    );
}

#[test]
fn missing_text_facts_fall_back_to_placeholder() {
    let facts = HostFacts {
        hostname: None,
        system_name: None,
        kernel_version: None,
        os_version: None,
        ..sample_facts()
    };
    let report = assemble_report(&facts).expect("assembly should still succeed");
    let p = pairs(&report);
    assert_eq!(p[0], ("Hostname".to_string(), "<unknown>".to_string()));
    assert_eq!(p[1], ("System Name".to_string(), "<unknown>".to_string()));
    assert_eq!(p[3], ("Kernel version".to_string(), "<unknown>".to_string()));
    assert_eq!(p[4], ("OS version".to_string(), "<unknown>".to_string()));
}

#[test]
fn empty_distribution_id_is_kept() {
    let facts = HostFacts {
        distribution_id: String::new(),
        ..sample_facts()
    };
    let report = assemble_report(&facts).expect("assembly should succeed");
    assert_eq!(report.fields[2].label, "Distribution");
    assert_eq!(report.fields[2].value, "");
}

#[test]
fn missing_terminal_is_fatal() {
    let facts = HostFacts {
        terminal: None,
        ..sample_facts()
    };
    assert_eq!(assemble_report(&facts), Err(ReportError::NoTerminal));
}

#[test]
fn missing_local_ip_is_fatal() {
    let facts = HostFacts {
        local_ip: None,
        ..sample_facts()
    };
    assert_eq!(assemble_report(&facts), Err(ReportError::NoLocalIp));
}

#[test]
fn missing_terminal_reported_before_missing_ip() {
    let facts = HostFacts {
        terminal: None,
        local_ip: None,
        ..sample_facts()
    };
    assert_eq!(assemble_report(&facts), Err(ReportError::NoTerminal));
}

#[test]
fn assembly_is_idempotent_on_one_snapshot() {
    let facts = sample_facts();
    let first = assemble_report(&facts).expect("assembly should succeed");
    let second = assemble_report(&facts).expect("assembly should succeed");
    assert_eq!(first, second);
}

#[test]
fn end_to_end_scenario() {
    let facts = sample_facts();
    let report = assemble_report(&facts).expect("assembly should succeed");
    let p = pairs(&report);
    assert!(p.contains(&("Hostname".to_string(), "box1".to_string())));
    assert!(p.contains(&("RAM".to_string(), "2.0 GB/8.0 GB".to_string())));
    assert!(p.contains(&("Swap".to_string(), "0 B/0 B".to_string())));
    assert!(p.contains(&(
        "UpTime".to_string(),
        "1970-01-01 00:00:00.000000".to_string()
    )));
    assert!(p.contains(&("Resolution".to_string(), "80x24".to_string())));
    assert!(p.contains(&("IP".to_string(), "192.168.1.5".to_string())));
    assert!(p.contains(&("CPUs".to_string(), "4".to_string())));
    assert!(p.contains(&("Processes".to_string(), "120".to_string())));
    assert!(p.contains(&("root".to_string(), "50.0 GB/100.0 GB".to_string())));

    let rendered = render_report(None, &report);
    assert!(rendered.contains("Hostname            : box1"));
    assert!(rendered.contains("root                : 50.0 GB/100.0 GB"));
}

#[test]
fn error_messages_name_the_failure() {
    assert_eq!(
        ReportError::NoTerminal.message(),
        "failed to get terminal dimensions"
    );
    assert_eq!(
        ReportError::NoLocalIp.message(),
        "failed to get a local network address"
    );
    assert_eq!(
        ReportError::FontUnavailable.message(),
        "failed to load the banner font"
    );
}

#[test]
fn render_line_pads_both_columns() {
    let line = render_line("Hostname", "box1");
    assert_eq!(
        line,
        "Hostname            : box1                          "
    );
    assert_eq!(line.chars().count(), 20 + 2 + 30);
}

#[test]
fn render_line_keeps_long_text_whole() {
    let long_label = "a".repeat(25);
    let line = render_line(&long_label, "v");
    assert!(line.starts_with(&long_label));
    assert!(line.contains(": v"));
}

#[test]
fn render_parts_split_label_from_value() {
    let field = Field {
        label: String::from("IP"),
        value: String::from("192.168.1.5"),
    };
    let (left, rest) = render_parts(&field);
    assert_eq!(left, "IP                  ");
    assert_eq!(rest, ": 192.168.1.5                   ");
}

#[test]
fn render_report_layout() {
    let report = Report {
        fields: vec![Field {
            label: String::from("CPUs"),
            value: String::from("4"),
        }],
    };
    let with_banner = render_report(Some("ART"), &report);
    assert_eq!(
        with_banner,
        "\n\n\nART\nCPUs                : 4                             \n\n\n"
    );
    let without_banner = render_report(None, &report);
    assert_eq!(
        without_banner,
        "\n\nFailed to generate ASCII art\nCPUs                : 4                             \n\n\n"
    );
}

#[test]
fn banner_absent_without_glyphs() {
    assert_eq!(make_banner(""), Ok(None));
    assert_eq!(make_banner("\u{1}"), Ok(None));
}

#[test]
fn banner_renders_ascii_art() {
    let art = make_banner("box")
        .expect("the bundled font should load")
        .expect("plain letters should have glyphs");
    assert!(art.contains('\n'));
    assert_ne!(art, "box");
    assert!(art.len() > "box".len());
}
