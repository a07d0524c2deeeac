use sigil::error::SigilError;
use sigil::system::{
    count_processors, memory_totals, parse_disk_usage, parse_memory_line, parse_u64, reports_state,
    split_fields, split_lines, starts_with,
};

#[test]
fn fields_split_on_any_white_space() {
    assert_eq!(split_fields("  MemTotal:\t 16318844 kB \n"), vec!["MemTotal:", "16318844", "kB"]);
    assert!(split_fields("   ").is_empty());
    assert_eq!(split_fields("a\u{3000}b"), vec!["a", "b"]);
}

#[test]
fn lines_split_like_text_lines() {
    assert_eq!(split_lines("a\nb\r\n\nc"), vec!["a", "b", "", "c"]);
    assert_eq!(split_lines("a\n"), vec!["a"]);
    assert!(split_lines("").is_empty());
}

#[test]
fn decimal_numbers() {
    assert_eq!(parse_u64("0"), Some(0));
    assert_eq!(parse_u64("+42"), Some(42));
    assert_eq!(parse_u64("18446744073709551615"), Some(u64::MAX));
    assert_eq!(parse_u64("18446744073709551616"), None);
    assert_eq!(parse_u64(""), None);
    assert_eq!(parse_u64("+"), None);
    assert_eq!(parse_u64("12a"), None);
    assert_eq!(parse_u64("-1"), None);
}

#[test]
fn memory_line_figure() {
    assert_eq!(parse_memory_line("MemTotal:       16318844 kB").unwrap(), 16318844);
    match parse_memory_line("MemTotal:") {
        Err(SigilError::SystemCommand { command, error }) => {
            assert_eq!(command, "parse_memory");
            assert_eq!(error, "Invalid format");
        }
        other => panic!("unexpected {:?}", other),
    }
    assert!(matches!(parse_memory_line("MemTotal: lots kB"), Err(SigilError::SystemCommand { .. })));
}

#[test]
fn meminfo_totals() {
    let text = "MemTotal:       16318844 kB\nMemFree:         1234 kB\nMemAvailable:    8000000 kB\n";
    assert_eq!(memory_totals(text).unwrap(), (16318844, 8000000));
    assert_eq!(memory_totals("Other: 1 kB\n").unwrap(), (0, 0));
    assert!(memory_totals("MemTotal: x kB\n").is_err());
}

#[test]
fn processor_lines_are_counted() {
    let text = "processor\t: 0\nmodel name\t: X\n\nprocessor\t: 1\nflags\t: fpu\n";
    assert_eq!(count_processors(text), 2);
    assert_eq!(count_processors(""), 0);
}

#[test]
fn df_listing_rows() {
    let text = "Filesystem Size Used Avail Use% Mounted on\n/dev/sda1 50G 20G 30G 40% /\nshort line\ntmpfs 1G 0 1G 0% /run\n";
    let disks = parse_disk_usage(text);
    assert_eq!(disks.len(), 2);
    assert_eq!(disks[0].filesystem, "/dev/sda1");
    assert_eq!(disks[0].usage_percent, "40%");
    assert_eq!(disks[0].mount_point, "/");
    assert_eq!(disks[1].mount_point, "/run");
    assert!(parse_disk_usage("").is_empty());
}

#[test]
fn probe_states() {
    assert!(reports_state("active\n", "active"));
    assert!(!reports_state("inactive\n", "active"));
    assert!(reports_state("  enabled ", "enabled"));
    assert!(starts_with("MemTotal: 1", "MemTotal:"));
    assert!(!starts_with("Mem", "MemTotal:"));
}
