use hy_tuner::tuner::{
    bandwidth_line, direction_names, is_success_status, parse_socks_port, patch_bandwidth, plan_search,
    plan_search_checked, sampling_plan, socks_port_from_capture, Direction, SearchPhase,
    SearchPlan,
};

const CONFIG: &str = "server: example.com:443\nauth: secret\n\nbandwidth:\n  up: 20 mbps\n  down: 100 mbps\n\nsocks5:\n  listen: 127.0.0.1:1089\n";

#[test]
fn socks_port_is_read_from_config() {
    assert_eq!(parse_socks_port(CONFIG), Ok(1089));
}

#[test]
fn socks_port_with_empty_host_is_read() {
    assert_eq!(parse_socks_port("socks5:\n  listen: :1081\n"), Ok(1081));
    assert_eq!(parse_socks_port("socks5:\n  listen: 127.0.0.1:1081\n"), Ok(1081));
}

#[test]
fn socks_port_defaults_to_1080() {
    assert_eq!(parse_socks_port("server: a\n"), Ok(1080));
    assert_eq!(parse_socks_port(""), Ok(1080));
}

#[test]
fn socks_port_too_large_falls_back_to_1080() {
    let cfg = "socks5:\n  listen: 0.0.0.0:70000\n";
    assert_eq!(parse_socks_port(cfg), Ok(1080));
}

#[test]
fn socks_port_with_unicode_digits_falls_back_to_1080() {
    let cfg = "socks5:\n  listen: 0.0.0.0:١٢٣\n";
    assert_eq!(parse_socks_port(cfg), Ok(1080));
}

#[test]
fn socks_port_from_capture_cases() {
    assert_eq!(socks_port_from_capture(None), 1080);
    assert_eq!(socks_port_from_capture(Some("8080")), 8080);
    assert_eq!(socks_port_from_capture(Some("65535")), 65535);
    assert_eq!(socks_port_from_capture(Some("")), 1080);
}

#[test]
fn bandwidth_lines() {
    assert_eq!(bandwidth_line(Direction::Up, 42), "  up: 42 Mbps");
    assert_eq!(bandwidth_line(Direction::Down, 2000), "  down: 2000 Mbps");
}

#[test]
fn patch_up_rewrites_only_the_up_line() {
    let patched = patch_bandwidth(CONFIG, Direction::Up, 55).unwrap();
    assert_eq!(
        patched,
        "server: example.com:443\nauth: secret\n\nbandwidth:\n  up: 55 Mbps\n  down: 100 mbps\n\nsocks5:\n  listen: 127.0.0.1:1089\n"
    );
}

#[test]
fn patch_down_rewrites_only_the_down_line() {
    let patched = patch_bandwidth(CONFIG, Direction::Down, 300).unwrap();
    assert!(patched.contains("\n  down: 300 Mbps\n"));
    assert!(patched.contains("\n  up: 20 mbps\n"));
}

#[test]
fn patch_empty_up_value_keeps_down_line() {
    let text = "bandwidth:\n  up:\n  down: 50 Mbps\n";
    assert_eq!(
        patch_bandwidth(text, Direction::Up, 100).unwrap(),
        "bandwidth:\n  up: 100 Mbps\n  down: 50 Mbps\n"
    );
    let text = "bandwidth:\n  up: 10 Mbps\n  down:\n";
    assert_eq!(
        patch_bandwidth(text, Direction::Down, 70).unwrap(),
        "bandwidth:\n  up: 10 Mbps\n  down: 70 Mbps\n"
    );
}

#[test]
fn patch_keeps_tab_indentation_on_one_line() {
    let text = "bandwidth:\n\tup:\t5 Mbps\n";
    assert_eq!(patch_bandwidth(text, Direction::Up, 6).unwrap(), "bandwidth:\n  up: 6 Mbps\n");
}

#[test]
fn patch_matches_other_horizontal_white_space() {
    let text = "bandwidth:\n\u{a0}up:\u{3000}5 Mbps\n\u{c}down: 9 Mbps\n";
    assert_eq!(
        patch_bandwidth(text, Direction::Up, 6).unwrap(),
        "bandwidth:\n  up: 6 Mbps\n\u{c}down: 9 Mbps\n"
    );
    assert_eq!(
        patch_bandwidth(text, Direction::Down, 8).unwrap(),
        "bandwidth:\n\u{a0}up:\u{3000}5 Mbps\n  down: 8 Mbps\n"
    );
}

#[test]
fn direction_names_for_logs() {
    assert_eq!(direction_names(Direction::Up), ("up", "上行"));
    assert_eq!(direction_names(Direction::Down), ("down", "下行"));
}

#[test]
fn patch_without_line_leaves_text() {
    let text = "server: a\n";
    assert_eq!(patch_bandwidth(text, Direction::Up, 10).unwrap(), text);
}

#[test]
fn patch_then_parse_keeps_port() {
    let patched = patch_bandwidth(CONFIG, Direction::Down, 123).unwrap();
    assert_eq!(parse_socks_port(&patched), Ok(1089));
}

#[test]
fn plan_shrinks_around_baseline() {
    // Default down range [50, 2000], accuracy 10, baseline 400 Mbps.
    let p = plan_search(50, 2000, 10, 400);
    assert_eq!(p, SearchPlan { search_min: 200, search_max: 600, accuracy: 10 });
}

#[test]
fn plan_keeps_configured_minimum() {
    let p = plan_search(50, 2000, 10, 60);
    assert_eq!(p.search_min, 50);
    assert_eq!(p.search_max, 90);
    assert_eq!(p.accuracy, 10);
}

#[test]
fn plan_stays_inside_configured_range() {
    // Range [10, 100], accuracy 10, a fast link with baseline 1000.
    let p = plan_search(10, 100, 10, 1000);
    assert_eq!(p, SearchPlan { search_min: 80, search_max: 100, accuracy: 10 });
    // Configured range narrower than twice the accuracy: window from the low end.
    let p = plan_search(10, 20, 10, 1000);
    assert_eq!(p, SearchPlan { search_min: 500, search_max: 520, accuracy: 10 });
    // Baseline inside the range: shrunk around it.
    let p = plan_search(10, 500, 10, 100);
    assert_eq!(p, SearchPlan { search_min: 50, search_max: 150, accuracy: 10 });
}

#[test]
fn plan_widens_to_twice_the_accuracy() {
    let p = plan_search(10, 500, 10, 0);
    assert_eq!(p, SearchPlan { search_min: 10, search_max: 30, accuracy: 10 });
}

#[test]
fn plan_accuracy_grows_with_width() {
    let p = plan_search(50, 5000, 10, 2000);
    assert_eq!(p.search_min, 1000);
    assert_eq!(p.search_max, 3000);
    assert_eq!(p.accuracy, 30);
    let p = plan_search(50, 5000, 10, 1400);
    assert_eq!(p.search_max - p.search_min, 1400);
    assert_eq!(p.accuracy, 30);
    let p = plan_search(50, 5000, 10, 1200);
    assert_eq!(p.search_max - p.search_min, 1200);
    let p = plan_search(50, 5000, 10, 1000);
    assert_eq!(p.search_max - p.search_min, 1000);
    assert_eq!(p.accuracy, 20);
    let p = plan_search(50, 5000, 10, 600);
    assert_eq!(p.search_max - p.search_min, 600);
    assert_eq!(p.accuracy, 20);
    let p = plan_search(50, 5000, 10, 500);
    assert_eq!(p.search_max - p.search_min, 500);
    assert_eq!(p.accuracy, 10);
}

#[test]
fn plan_cuts_large_baseline_to_32_bits() {
    let b = u32::MAX;
    let wide = ((b as u64 * 3 / 2) % (1u64 << 32)) as u32;
    let p = plan_search(0, u32::MAX, 1, b);
    // The cut value 2147483646 lies below the low end 2147483647, so a window
    // twice the accuracy wide is searched from the low end.
    assert!(wide < b / 2 + 2);
    assert_eq!(p.search_min, b / 2);
    assert_eq!(p.search_max, b / 2 + 2);
}

#[test]
fn checked_plan_refuses_overflow() {
    assert_eq!(plan_search_checked(50, 2000, u32::MAX, 400), None);
    assert_eq!(plan_search_checked(u32::MAX - 5, u32::MAX, 10, 0), None);
    assert_eq!(
        plan_search_checked(0, 1000, 10, 4000),
        Some(SearchPlan { search_min: 980, search_max: 1000, accuracy: 10 })
    );
    assert_eq!(plan_search_checked(0, 5000, 2_000_000_000, 0), None);
    assert_eq!(plan_search_checked(50, 2000, 10, 400), Some(plan_search(50, 2000, 10, 400)));
}

#[test]
fn sampling_plans() {
    let c = sampling_plan(SearchPhase::Coarse);
    assert_eq!((c.samples, c.interval_ms), (2, 500));
    let f = sampling_plan(SearchPhase::Fine);
    assert_eq!((f.samples, f.interval_ms), (3, 600));
}

#[test]
fn success_statuses() {
    assert!(is_success_status(200));
    assert!(is_success_status(299));
    assert!(!is_success_status(199));
    assert!(!is_success_status(300));
    assert!(!is_success_status(404));
}
