use sysfetch::decimal::{decimal, two_digits};
use sysfetch::system_info::{Environment, Style, SystemInfo, Timestamp};
use sysfetch::text::{
    cpu_summary, format_cpu, format_memory, format_os, format_storage, format_uptime,
    known_or_unknown, shell_name, window_manager,
};

const GIB: u64 = 1024 * 1024 * 1024;

fn some(s: &str) -> Option<String> {
    Some(s.to_string())
}

fn sample() -> SystemInfo {
    SystemInfo {
        user: "alice".to_string(),
        hostname: "box".to_string(),
        datetime: Timestamp { year: 2024, month: 3, day: 5, hour: 9, minute: 7 },
        os_info: "Linux 24.04 6.8.0".to_string(),
        uptime: "1d 1h 1m".to_string(),
        shell: "zsh".to_string(),
        displays: "1".to_string(),
        window_manager: "GNOME".to_string(),
        terminal: "xterm-256color".to_string(),
        font: "Unknown".to_string(),
        cpu: "Ryzen (8 cores)".to_string(),
        gpu: "Unknown".to_string(),
        memory: "2048MB / 8192MB".to_string(),
        storage: "40GB / 150GB".to_string(),
    }
}

#[test]
fn decimal_writes_digits() {
    assert_eq!(decimal(0), "0");
    assert_eq!(decimal(7), "7");
    assert_eq!(decimal(10), "10");
    assert_eq!(decimal(90061), "90061");
    assert_eq!(decimal(u64::MAX as u128), "18446744073709551615");
}

#[test]
fn two_digits_pads_with_zero() {
    assert_eq!(two_digits(0), "00");
    assert_eq!(two_digits(7), "07");
    assert_eq!(two_digits(42), "42");
}

#[test]
fn uptime_one_day_one_hour_one_minute() {
    assert_eq!(format_uptime(90061), "1d 1h 1m");
}

#[test]
fn uptime_zero_and_partial_minutes() {
    assert_eq!(format_uptime(0), "0d 0h 0m");
    assert_eq!(format_uptime(59), "0d 0h 0m");
    assert_eq!(format_uptime(86399), "0d 23h 59m");
    assert_eq!(format_uptime(3 * 86400 + 2 * 3600 + 30 * 60 + 5), "3d 2h 30m");
}

#[test]
fn shell_takes_last_path_segment() {
    assert_eq!(shell_name(&some("/usr/bin/zsh")), "zsh");
    assert_eq!(shell_name(&some("bash")), "bash");
    assert_eq!(shell_name(&some("/bin//fish")), "fish");
}

#[test]
fn shell_unset_or_empty_is_unknown() {
    assert_eq!(shell_name(&None), "Unknown");
    assert_eq!(shell_name(&some("")), "Unknown");
    assert_eq!(shell_name(&some("/usr/bin/")), "Unknown");
}

#[test]
fn window_manager_prefers_first_source() {
    assert_eq!(window_manager(&some("GNOME"), &None), "GNOME");
    assert_eq!(window_manager(&some("KDE"), &some("plasma")), "KDE");
}

#[test]
fn window_manager_falls_back_to_second_source() {
    assert_eq!(window_manager(&None, &some("gnome")), "gnome");
    assert_eq!(window_manager(&some(""), &some("gnome")), "gnome");
}

#[test]
fn window_manager_both_unset_is_unknown() {
    assert_eq!(window_manager(&None, &None), "Unknown");
}

#[test]
fn terminal_placeholder() {
    assert_eq!(known_or_unknown(&some("xterm")), "xterm");
    assert_eq!(known_or_unknown(&None), "Unknown");
    assert_eq!(known_or_unknown(&some("")), "Unknown");
}

#[test]
fn memory_in_whole_megabytes() {
    assert_eq!(format_memory(2147483648, 8589934592), "2048MB / 8192MB");
    assert_eq!(format_memory(1048575, 1048576), "0MB / 1MB");
    assert_eq!(format_memory(u64::MAX, u64::MAX), "17592186044415MB / 17592186044415MB");
}

#[test]
fn storage_sums_all_volumes() {
    let vols = vec![(100 * GIB, 60 * GIB), (50 * GIB, 50 * GIB)];
    assert_eq!(format_storage(&vols), "40GB / 150GB");
}

#[test]
fn storage_without_volumes_is_zero() {
    assert_eq!(format_storage(&Vec::new()), "0GB / 0GB");
}

#[test]
fn storage_counts_no_negative_use() {
    let vols = vec![(10 * GIB, 20 * GIB), (4 * GIB, GIB)];
    assert_eq!(format_storage(&vols), "3GB / 14GB");
}

#[test]
fn storage_does_not_overflow() {
    let vols = vec![(u64::MAX, 0), (u64::MAX, 0)];
    assert_eq!(format_storage(&vols), "34359738367GB / 34359738367GB");
}

#[test]
fn cpu_brand_is_trimmed_and_cores_counted() {
    let brands = vec!["  AMD Ryzen 7  ".to_string(); 8];
    assert_eq!(cpu_summary(&brands), "AMD Ryzen 7 (8 cores)");
    assert_eq!(format_cpu("X", 1), "X (1 cores)");
}

#[test]
fn cpu_without_entries_is_unknown() {
    assert_eq!(cpu_summary(&Vec::new()), "Unknown");
}

#[test]
fn os_parts_fall_back_separately() {
    assert_eq!(format_os(&some("Linux 24.04"), &some("6.8.0")), "Linux 24.04 6.8.0");
    assert_eq!(format_os(&None, &some("6.8.0")), "Unknown 6.8.0");
    assert_eq!(format_os(&None, &None), "Unknown Unknown");
}

#[test]
fn timestamp_month_day_year_hour_minute() {
    let t = Timestamp { year: 2024, month: 3, day: 5, hour: 9, minute: 7 };
    assert_eq!(t.format(), "03/05/24 09:07");
    let t = Timestamp { year: 2000, month: 12, day: 31, hour: 23, minute: 59 };
    assert_eq!(t.format(), "12/31/00 23:59");
    let t = Timestamp { year: -1, month: 1, day: 1, hour: 0, minute: 0 };
    assert_eq!(t.format(), "01/01/99 00:00");
}

#[test]
fn render_lines_in_order() {
    let lines = sample().as_vec();
    let expected = vec![
        "alice@box (03/05/24 09:07)",
        "",
        "OS: Linux 24.04 6.8.0",
        "Uptime: 1d 1h 1m",
        "Shell: zsh",
        "Displays: 1",
        "WM: GNOME",
        "Terminal: xterm-256color",
        "Font: Unknown",
        "CPU: Ryzen (8 cores)",
        "GPU: Unknown",
        "Memory: 2048MB / 8192MB",
        "Storage: 40GB / 150GB",
    ];
    assert_eq!(lines, expected);
}

#[test]
fn render_twice_is_identical() {
    let info = sample();
    assert_eq!(info.as_vec(), info.as_vec());
}

#[test]
fn render_has_thirteen_lines() {
    let mut info = sample();
    info.os_info = "Unknown Unknown".to_string();
    info.cpu = "Unknown".to_string();
    let lines = info.as_vec();
    assert_eq!(lines.len(), 13);
    assert_eq!(lines[1], "");
}

#[test]
fn gather_fills_every_field() {
    let env = Environment {
        shell: some("/usr/bin/zsh"),
        desktop: None,
        session: some("gnome"),
        term: None,
    };
    let info = SystemInfo::new(&env);
    assert_eq!(info.shell, "zsh");
    assert_eq!(info.window_manager, "gnome");
    assert_eq!(info.terminal, "Unknown");
    assert_eq!(info.displays, "1");
    assert_eq!(info.font, "Unknown");
    assert_eq!(info.gpu, "Unknown");
    for f in [
        &info.user, &info.hostname, &info.os_info, &info.uptime, &info.cpu, &info.memory,
        &info.storage,
    ] {
        assert!(!f.is_empty());
    }
    assert!(info.memory.ends_with("MB"));
    assert!(info.storage.ends_with("GB"));
    assert_eq!(info.as_vec().len(), 13);
}

#[test]
fn styled_lines_join_to_plain_lines() {
    let info = sample();
    let styled = info.styled_lines();
    let plain = info.as_vec();
    assert_eq!(styled.len(), 13);
    for (segs, line) in styled.iter().zip(plain.iter()) {
        let joined: String = segs.iter().map(|s| s.text.as_str()).collect();
        assert_eq!(&joined, line);
    }
    assert!(matches!(styled[0][0].style, Style::Name));
    assert_eq!(styled[0][0].text, "alice");
    assert!(matches!(styled[0][4].style, Style::Muted));
    assert!(matches!(styled[2][0].style, Style::Label));
    assert_eq!(styled[2][0].text, "OS:");
    assert!(styled[1].is_empty());
}
