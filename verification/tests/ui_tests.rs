use hy_tuner::config::Tunable;
use hy_tuner::ui::app::{App, AppCommand};
use hy_tuner::ui::input::{adjust_field, edit_field, prompt_label};
use hy_tuner::ui::layout::{field_highlighted, field_label, log_panel_highlighted, visible_log_window};
use hy_tuner::ui::style::{log_style_with, styled_log_line, LogColor, LogStyle};
use hy_tuner::ui::types::{Field, Focus, Key};
use hy_tuner::text::IntParseError;

#[test]
fn default_parameters() {
    let t = Tunable::default();
    assert_eq!(t.test_file_url, "http://cachefly.cachefly.net/100mb.test");
    assert_eq!(t.latency_url, "https://www.cloudflare.com/cdn-cgi/trace");
    assert_eq!((t.min_up, t.max_up, t.min_down, t.max_down, t.target_accuracy), (10, 500, 50, 2000, 10));
    assert_eq!(t.hy_config, "./hy/config.yaml");
    assert_eq!(t.hy_binary, "./hy/hysteria");
    assert_eq!(t.hy_download_url, "https://download.hysteria.network/app/latest/hysteria-linux-amd64");
}

#[test]
fn adjust_steps_bandwidth_by_ten_and_accuracy_by_one() {
    let mut t = Tunable::default();
    adjust_field(&mut t, &Field::MinUp, 1);
    assert_eq!(t.min_up, 20);
    adjust_field(&mut t, &Field::MaxDown, -1);
    assert_eq!(t.max_down, 1990);
    adjust_field(&mut t, &Field::TargetAccuracy, 1);
    assert_eq!(t.target_accuracy, 11);
    adjust_field(&mut t, &Field::TestFileUrl, 1);
    assert_eq!(t.test_file_url, Tunable::default().test_file_url);
}

#[test]
fn adjust_never_goes_below_one() {
    let mut t = Tunable::default();
    adjust_field(&mut t, &Field::MinUp, -1);
    assert_eq!(t.min_up, 1);
    adjust_field(&mut t, &Field::MinUp, -1);
    assert_eq!(t.min_up, 1);
    t.target_accuracy = 1;
    adjust_field(&mut t, &Field::TargetAccuracy, -1);
    assert_eq!(t.target_accuracy, 1);
    t.max_up = 3_000_000_000;
    adjust_field(&mut t, &Field::MaxUp, 1);
    assert_eq!(t.max_up, 1);
}

#[test]
fn adjust_round_trip() {
    let mut t = Tunable::default();
    adjust_field(&mut t, &Field::MaxUp, 1);
    adjust_field(&mut t, &Field::MaxUp, -1);
    assert_eq!(t.max_up, 500);
    adjust_field(&mut t, &Field::TargetAccuracy, -1);
    adjust_field(&mut t, &Field::TargetAccuracy, 1);
    assert_eq!(t.target_accuracy, 10);
}

#[test]
fn edit_sets_trimmed_values() {
    let mut t = Tunable::default();
    assert_eq!(edit_field(&mut t, &Field::LatencyUrl, "  http://x/y \n"), Ok(()));
    assert_eq!(t.latency_url, "http://x/y");
    assert_eq!(edit_field(&mut t, &Field::MaxUp, " 800\n"), Ok(()));
    assert_eq!(t.max_up, 800);
    assert_eq!(edit_field(&mut t, &Field::TargetAccuracy, "+5"), Ok(()));
    assert_eq!(t.target_accuracy, 5);
}

#[test]
fn edit_with_empty_answer_keeps_value() {
    let mut t = Tunable::default();
    assert_eq!(edit_field(&mut t, &Field::TestFileUrl, "   \n"), Ok(()));
    assert_eq!(t.test_file_url, "http://cachefly.cachefly.net/100mb.test");
    assert_eq!(edit_field(&mut t, &Field::MinDown, "\n"), Ok(()));
    assert_eq!(t.min_down, 50);
}

#[test]
fn edit_with_bad_number_fails_and_keeps_value() {
    let mut t = Tunable::default();
    assert_eq!(edit_field(&mut t, &Field::MinDown, "abc\n"), Err(IntParseError::InvalidDigit));
    assert_eq!(t.min_down, 50);
    assert_eq!(edit_field(&mut t, &Field::MinDown, "5000000000"), Err(IntParseError::PosOverflow));
    assert_eq!(t.min_down, 50);
}

#[test]
fn prompt_labels() {
    assert_eq!(prompt_label(&Field::TestFileUrl), "TEST_FILE_URL");
    assert_eq!(prompt_label(&Field::TargetAccuracy), "TARGET_ACCURACY");
}

#[test]
fn app_starts_on_first_parameter() {
    let app = App::new();
    assert_eq!(app.selected, 0);
    assert_eq!(app.focus, Focus::Params);
    assert_eq!(app.fields.len(), 7);
    assert_eq!(app.fields[6], Field::TargetAccuracy);
    assert!(app.logs.is_empty());
    assert!(!app.tuning_active);
}

#[test]
fn app_selection_stays_in_range() {
    let mut app = App::new();
    app.handle_key_event(Key::Up);
    assert_eq!(app.selected, 0);
    for _ in 0..10 {
        app.handle_key_event(Key::Down);
    }
    assert_eq!(app.selected, 6);
}

#[test]
fn app_tab_twice_restores_focus() {
    let mut app = App::new();
    app.handle_key_event(Key::Tab);
    assert_eq!(app.focus, Focus::Logs);
    app.handle_key_event(Key::Tab);
    assert_eq!(app.focus, Focus::Params);
}

#[test]
fn app_log_scrolling_saturates() {
    let mut app = App::new();
    app.handle_key_event(Key::Tab);
    app.handle_key_event(Key::Down);
    assert_eq!(app.log_scroll, 0);
    app.handle_key_event(Key::PageUp);
    app.handle_key_event(Key::Up);
    assert_eq!(app.log_scroll, 6);
    app.handle_key_event(Key::PageDown);
    assert_eq!(app.log_scroll, 1);
    app.log_scroll = usize::MAX;
    app.handle_key_event(Key::Up);
    assert_eq!(app.log_scroll, usize::MAX);
}

#[test]
fn app_arrow_keys_adjust_selected_parameter() {
    let mut app = App::new();
    app.handle_key_event(Key::Down);
    app.handle_key_event(Key::Down);
    app.handle_key_event(Key::Right);
    assert_eq!(app.state.min_up, 20);
    app.handle_key_event(Key::Tab);
    app.handle_key_event(Key::Left);
    assert_eq!(app.state.min_up, 20);
}

#[test]
fn app_commands() {
    let mut app = App::new();
    assert!(matches!(app.handle_key_event(Key::Char('q')), AppCommand::Quit));
    assert!(matches!(app.handle_key_event(Key::Char('x')), AppCommand::Continue));
    assert!(matches!(app.handle_key_event(Key::Char('e')), AppCommand::Edit(Field::TestFileUrl)));
    app.handle_key_event(Key::Tab);
    assert!(matches!(app.handle_key_event(Key::Char('e')), AppCommand::Continue));
}

#[test]
fn app_start_tuning_once() {
    let mut app = App::new();
    app.update_logs(vec!["old".to_string()]);
    app.log_scroll = 3;
    match app.handle_key_event(Key::Char('s')) {
        AppCommand::StartTuning(cfg) => assert_eq!(cfg.max_down, 2000),
        other => panic!("unexpected {other:?}"),
    }
    assert!(app.tuning_active);
    assert!(app.logs.is_empty());
    assert_eq!(app.log_scroll, 0);
    assert!(matches!(app.handle_key_event(Key::Char('s')), AppCommand::Continue));
    assert!(!app.check_tuning_complete(false));
    assert!(app.tuning_active);
    assert!(app.check_tuning_complete(true));
    assert!(!app.tuning_active);
    assert!(!app.check_tuning_complete(true));
}

#[test]
fn app_keeps_last_200_log_lines() {
    let mut app = App::new();
    let lines: Vec<String> = (0..250).map(|i| format!("line {i}")).collect();
    app.log_scroll = 4;
    app.update_logs(lines);
    assert_eq!(app.logs.len(), 200);
    assert_eq!(app.logs[0], "line 50");
    assert_eq!(app.logs[199], "line 249");
    assert_eq!(app.log_scroll, 0);
    app.log_scroll = 2;
    app.update_logs(Vec::new());
    assert_eq!(app.log_scroll, 2);
    app.update_logs(vec!["next".to_string()]);
    assert_eq!(app.logs.len(), 200);
    assert_eq!(app.logs[0], "line 51");
    assert_eq!(app.logs[199], "next");
}

#[test]
fn labels_of_parameters() {
    let t = Tunable::default();
    assert_eq!(field_label(&t, &Field::MinUp), "上行最小: 10 Mbps");
    assert_eq!(field_label(&t, &Field::MaxDown), "下行最大: 2000 Mbps");
    assert_eq!(field_label(&t, &Field::TargetAccuracy), "搜索精度: 10 Mbps");
    assert_eq!(field_label(&t, &Field::LatencyUrl), "延迟探针: https://www.cloudflare.com/cdn-cgi/trace");
    assert!(field_highlighted(2, 2, Focus::Params));
    assert!(!field_highlighted(2, 2, Focus::Logs));
    assert!(!field_highlighted(1, 2, Focus::Params));
}

#[test]
fn log_panel_border_follows_focus() {
    assert!(log_panel_highlighted(Focus::Logs));
    assert!(!log_panel_highlighted(Focus::Params));
}

#[test]
fn log_window_shows_newest_lines() {
    assert_eq!(visible_log_window(100, 12, 0), Some((90, 100)));
    assert_eq!(visible_log_window(100, 12, 5), Some((85, 95)));
    assert_eq!(visible_log_window(5, 12, 0), Some((0, 5)));
    assert_eq!(visible_log_window(5, 12, 5), None);
    assert_eq!(visible_log_window(0, 12, 0), None);
    assert_eq!(visible_log_window(10, 1, 0), None);
}

#[test]
fn log_line_styles() {
    let red = LogStyle { color: LogColor::Red, bold: true };
    let green = LogStyle { color: LogColor::Green, bold: true };
    assert_eq!(styled_log_line("错误: 下载失败"), red);
    assert_eq!(styled_log_line("curl ERROR 7"), red);
    assert_eq!(styled_log_line("下载完成！"), green);
    assert_eq!(styled_log_line("最终速度：12.00 Mbps"), LogStyle { color: LogColor::Cyan, bold: false });
    assert_eq!(styled_log_line("最终延迟：80 ms"), LogStyle { color: LogColor::Magenta, bold: false });
    assert_eq!(styled_log_line("开始下载..."), LogStyle { color: LogColor::Gray, bold: false });
    assert_eq!(styled_log_line("速度完成"), green);
}

#[test]
fn log_style_uses_given_lowercase() {
    assert_eq!(log_style_with("Fine", "error"), LogStyle { color: LogColor::Red, bold: true });
    assert_eq!(log_style_with("ERROR", "fine"), LogStyle { color: LogColor::Gray, bold: false });
}
