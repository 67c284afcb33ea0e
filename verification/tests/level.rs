use noxide::level::Level;
use noxide::text::{same_text, starts_with};

#[test]
fn level_names() {
    assert_eq!(Level::Error.as_str(), "ERROR");
    assert_eq!(Level::Warn.as_str(), "WARN");
    assert_eq!(Level::Info.as_str(), "INFO");
    assert_eq!(Level::Debug.as_str(), "DEBUG");
    assert_eq!(Level::Trace.as_str(), "TRACE");
}

#[test]
fn level_ranks() {
    assert_eq!(Level::Error.severity_rank(), 1);
    assert_eq!(Level::Warn.severity_rank(), 2);
    assert_eq!(Level::Info.severity_rank(), 3);
    assert_eq!(Level::Debug.severity_rank(), 4);
    assert_eq!(Level::Trace.severity_rank(), 5);
}

#[test]
fn error_is_the_most_severe() {
    let levels = [Level::Error, Level::Warn, Level::Info, Level::Debug, Level::Trace];
    for (i, a) in levels.iter().enumerate() {
        for (j, b) in levels.iter().enumerate() {
            assert_eq!(a.is_at_least(*b), i <= j);
        }
    }
}

#[test]
fn info_threshold() {
    assert!(Level::Error.is_at_least(Level::Info));
    assert!(Level::Warn.is_at_least(Level::Info));
    assert!(Level::Info.is_at_least(Level::Info));
    assert!(!Level::Debug.is_at_least(Level::Info));
    assert!(!Level::Trace.is_at_least(Level::Info));
}

#[test]
fn prefixes() {
    assert!(starts_with("noxide::jslog", "noxide"));
    assert!(starts_with("noxide", "noxide"));
    assert!(starts_with("noxide", ""));
    assert!(starts_with("", ""));
    assert!(!starts_with("", "n"));
    assert!(!starts_with("noxid", "noxide"));
    assert!(!starts_with("noxidf", "noxide"));
    assert!(!starts_with("xnoxide", "noxide"));
}

#[test]
fn prefixes_go_by_characters() {
    assert!(starts_with("h\u{e9}llo", "h\u{e9}"));
    assert!(!starts_with("h\u{e9}llo", "he"));
    assert!(!starts_with("\u{e9}", "\u{e8}"));
    assert!(starts_with("\u{65e5}\u{672c}\u{8a9e}", "\u{65e5}\u{672c}"));
}

#[test]
fn equal_texts() {
    assert!(same_text("", ""));
    assert!(same_text("CERTIFICATE", "CERTIFICATE"));
    assert!(!same_text("CERTIFICATE", "CERTIFICATES"));
    assert!(!same_text("CERTIFICATES", "CERTIFICATE"));
    assert!(!same_text("CERTIFICATE", "CERTIFICATe"));
    assert!(!same_text("", "a"));
    assert!(same_text("\u{65e5}\u{672c}", "\u{65e5}\u{672c}"));
}
