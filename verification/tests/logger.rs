use ye_olde_discord::ui::logger::{
    logger_text, Level, LevelFilter, LogColor, LogMessage, TargetFilter, TuiLogger,
    TuiLoggerConfig, LOG_CAPACITY,
};
use ye_olde_discord::ui::wrap::{render_plan, wrap_text, Placement, Rect};

fn record(level: Level, target: &str, text: &str) -> LogMessage {
    LogMessage {
        timestamp: "12:34:56".to_string(),
        level,
        target: target.to_string(),
        file: "src/main.rs".to_string(),
        line: 7,
        message: text.to_string(),
    }
}

#[test]
fn default_config_keeps_everything() {
    let c = TuiLoggerConfig::default();
    assert_eq!(c.level, LevelFilter::Trace);
    assert!(matches!(c.target_filter, TargetFilter::NoFilter));
    assert!(matches!(TargetFilter::default(), TargetFilter::NoFilter));
    for level in [Level::Error, Level::Warn, Level::Info, Level::Debug, Level::Trace] {
        assert!(c.enabled(level, "anything"));
    }
}

#[test]
fn setters_replace_one_setting() {
    let c = TuiLoggerConfig::default().set_level(LevelFilter::Info);
    assert_eq!(c.level, LevelFilter::Info);
    assert!(matches!(c.target_filter, TargetFilter::NoFilter));
    let c = c.set_filter(TargetFilter::Whitelist(vec!["ye_olde_discord".to_string()]));
    assert_eq!(c.level, LevelFilter::Info);
    assert!(matches!(c.target_filter, TargetFilter::Whitelist(_)));
}

#[test]
fn level_filter_is_a_threshold() {
    let c = TuiLoggerConfig::default().set_level(LevelFilter::Warn);
    assert!(c.enabled(Level::Error, "x"));
    assert!(c.enabled(Level::Warn, "x"));
    assert!(!c.enabled(Level::Info, "x"));
    assert!(!c.enabled(Level::Trace, "x"));
    let off = TuiLoggerConfig::default().set_level(LevelFilter::Off);
    assert!(!off.enabled(Level::Error, "x"));
}

#[test]
fn whitelist_and_blacklist_match_by_prefix() {
    let list = || vec!["ye_olde_discord".to_string(), "tung".to_string()];
    let white = TuiLoggerConfig::default().set_filter(TargetFilter::Whitelist(list()));
    let black = TuiLoggerConfig::default().set_filter(TargetFilter::Blacklist(list()));
    for (target, listed) in [
        ("ye_olde_discord::voice", true),
        ("ye_olde_discord", true),
        ("tungstenite::protocol", true),
        ("ye_olde", false),
        ("async_std", false),
        ("", false),
    ] {
        assert_eq!(white.enabled(Level::Info, target), listed, "{}", target);
        assert_eq!(black.enabled(Level::Info, target), !listed, "{}", target);
    }
    let empty_white = TuiLoggerConfig::default().set_filter(TargetFilter::Whitelist(vec![]));
    assert!(!empty_white.enabled(Level::Error, "x"));
    let empty_prefix = TuiLoggerConfig::default().set_filter(TargetFilter::Blacklist(vec![String::new()]));
    assert!(!empty_prefix.enabled(Level::Error, "x"));
}

#[test]
fn logger_keeps_permitted_records() {
    let mut l = TuiLogger::new();
    l.configure(TuiLoggerConfig::default().set_level(LevelFilter::Info));
    l.log(record(Level::Debug, "a", "dropped"));
    assert_eq!(l.len(), 0);
    l.log(record(Level::Warn, "a", "kept"));
    assert_eq!(l.len(), 1);
    assert_eq!(l.newest(0).message, "kept");
    assert!(l.enabled(Level::Error, "a"));
    assert!(!l.enabled(Level::Trace, "a"));
}

#[test]
fn logger_drops_oldest_when_full() {
    let mut l = TuiLogger::new();
    for i in 0..(LOG_CAPACITY + 5) {
        l.log(record(Level::Info, "t", &format!("{}", i)));
    }
    assert_eq!(LOG_CAPACITY, 128);
    assert_eq!(l.len(), 128);
    assert_eq!(l.newest(0).message, "132");
    assert_eq!(l.newest(127).message, "5");
}

#[test]
fn console_text_is_newest_first() {
    let mut l = TuiLogger::new();
    let mut first = record(Level::Error, "t", "one");
    first.timestamp = "10:00:00".to_string();
    l.log(first);
    l.log(record(Level::Debug, "t", "two"));
    let texts = logger_text(&l, 10);
    assert_eq!(texts.len(), 4);
    assert_eq!(texts[0].content, "12:34:56");
    assert_eq!(texts[0].color, LogColor::Gray);
    assert!(!texts[0].bold);
    assert_eq!(texts[1].content, "DEBUG");
    assert_eq!(texts[1].color, LogColor::Cyan);
    assert!(texts[1].bold);
    assert_eq!(texts[2].content, "10:00:00");
    assert_eq!(texts[3].content, "ERROR");
    assert_eq!(texts[3].color, LogColor::Red);

    let cut = logger_text(&l, 3);
    assert_eq!(cut.len(), 3);
    assert_eq!(cut[2].content, "10:00:00");
    assert_eq!(logger_text(&l, 0).len(), 0);
}

#[test]
fn level_names_and_colors() {
    assert_eq!(Level::Trace.as_str(), "TRACE");
    assert_eq!(Level::Info.as_str(), "INFO");
    assert_eq!(Level::Warn.as_str(), "WARN");
    let mut l = TuiLogger::new();
    for level in [Level::Trace, Level::Info, Level::Warn] {
        l.log(record(level, "t", "m"));
    }
    let texts = logger_text(&l, 6);
    assert_eq!(texts[1].color, LogColor::Yellow);
    assert_eq!(texts[3].color, LogColor::Blue);
    assert_eq!(texts[5].color, LogColor::White);
}

fn area(width: u16, height: u16) -> Rect {
    Rect { x: 2, y: 3, width, height }
}

#[test]
fn wrap_writes_lines_bottom_up() {
    // 25 bytes in lines of 10: three lines, the last chunk lowest.
    let w = wrap_text(25, area(10, 5), (0, 0));
    assert_eq!(w.lines, 3);
    assert_eq!(w.chars, 10);
    assert_eq!(
        w.placements,
        vec![
            Placement { start: 20, end: 25, x: 2, y: 7 },
            Placement { start: 10, end: 20, x: 2, y: 6 },
            Placement { start: 0, end: 10, x: 2, y: 5 },
        ]
    );
}

#[test]
fn wrap_stops_when_rows_run_out() {
    let w = wrap_text(25, area(10, 5), (0, 3));
    assert_eq!(w.placements.len(), 2);
    assert_eq!(w.placements[0], Placement { start: 20, end: 25, x: 2, y: 7 });
    assert_eq!(w.placements[1], Placement { start: 10, end: 20, x: 2, y: 6 });
    assert_eq!(w.lines, 3);
    assert_eq!(w.chars, 10);

    let w = wrap_text(25, area(10, 5), (0, 5));
    assert!(w.placements.is_empty());
    assert_eq!(w.lines, 1);
    assert_eq!(w.chars, 5);
}

#[test]
fn wrap_of_exact_multiple_and_empty() {
    let w = wrap_text(20, area(10, 5), (0, 0));
    assert_eq!(w.lines, 2);
    assert_eq!(w.placements[0], Placement { start: 10, end: 20, x: 2, y: 7 });
    let w = wrap_text(0, area(10, 5), (0, 0));
    assert_eq!(w.lines, 0);
    assert_eq!(w.chars, 0);
    assert!(w.placements.is_empty());
}

#[test]
fn render_plans_each_text_from_the_bottom() {
    let plan = render_plan(area(10, 4), &vec![15, 25, 5]);
    // The first text takes two rows; the second has two rows left and takes three.
    assert_eq!(plan.len(), 2);
    assert_eq!(plan[0].len(), 2);
    assert_eq!(plan[1].len(), 2);
    assert_eq!(plan[1][0], Placement { start: 20, end: 25, x: 2, y: 6 });
    assert!(render_plan(area(7, 4), &vec![15]).is_empty());
    assert!(render_plan(area(10, 0), &vec![15]).is_empty());
    assert_eq!(render_plan(area(10, 4), &vec![]).len(), 0);
}
