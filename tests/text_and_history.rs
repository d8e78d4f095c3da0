use rust_terminal_emulator::history::{HistoryCursor, Recall};
use rust_terminal_emulator::input_line::InputLine;
use rust_terminal_emulator::prompt::format_prompt;
use rust_terminal_emulator::text::{is_space, split_lines, trim};

#[test]
fn trim_strips_both_ends() {
    assert_eq!(trim("  ls -l \t\n"), "ls -l");
    assert_eq!(trim("\u{3000}a b\u{a0}"), "a b");
    assert_eq!(trim(" \t "), "");
    assert_eq!(trim(""), "");
    assert_eq!(trim("pwd"), "pwd");
}

#[test]
fn is_space_matches_std() {
    for c in ['a', ' ', '\t', '\n', '\u{85}', '\u{a0}', '\u{2007}', '\u{200b}', '\u{3000}', 'x', '\u{feff}'] {
        assert_eq!(is_space(c), c.is_whitespace(), "{:?}", c);
    }
}

#[test]
fn split_lines_like_std_lines() {
    for text in ["", "a", "a\n", "a\r\nb\n\nc\n", "\n", "x\ry", "end\r", "a\n\n"] {
        let want: Vec<String> = text.lines().map(|l| l.to_string()).collect();
        assert_eq!(split_lines(text), want, "{:?}", text);
    }
    assert_eq!(split_lines("/tmp\n"), vec!["/tmp".to_string()]);
}

#[test]
fn prompt_format() {
    assert_eq!(format_prompt("alice", "box", "/home/alice"), "alice@box(/home/alice): ");
}

#[test]
fn input_line_editing() {
    let mut l = InputLine::new();
    l.pop_back();
    assert_eq!(l.as_text(), "");
    l.push('l');
    l.push('s');
    assert_eq!(l.as_text(), "ls");
    l.pop_back();
    assert_eq!(l.as_text(), "l");
    l.replace("echo hi");
    assert_eq!(l.as_text(), "echo hi");
    l.clear();
    assert_eq!(l.as_text(), "");
}

#[test]
fn record_then_older_returns_entry() {
    let mut h = HistoryCursor::new();
    h.record("ls".to_string());
    assert_eq!(h.older(), Some("ls".to_string()));
    assert_eq!(h.older(), None);
    assert_eq!(h.position(), Some(0));
}

#[test]
fn blank_commands_are_not_recorded() {
    let mut h = HistoryCursor::new();
    h.record("".to_string());
    h.record("   \t".to_string());
    assert!(h.entries().is_empty());
    h.record(" ls ".to_string());
    assert_eq!(h.entries(), &vec![" ls ".to_string()]);
}

#[test]
fn older_on_empty_history_is_noop() {
    let mut h = HistoryCursor::new();
    assert_eq!(h.older(), None);
    assert_eq!(h.position(), None);
    assert!(matches!(h.newer(), Recall::Unchanged));
}

#[test]
fn browse_up_then_down_restores_live_input() {
    let mut h = HistoryCursor::new();
    for c in ["a", "b", "c"] {
        h.record(c.to_string());
    }
    assert_eq!(h.older(), Some("c".to_string()));
    assert_eq!(h.older(), Some("b".to_string()));
    assert_eq!(h.older(), Some("a".to_string()));
    assert_eq!(h.older(), None);
    match h.newer() {
        Recall::Entry(e) => assert_eq!(e, "b"),
        _ => panic!("expected an entry"),
    }
    match h.newer() {
        Recall::Entry(e) => assert_eq!(e, "c"),
        _ => panic!("expected an entry"),
    }
    assert!(matches!(h.newer(), Recall::Clear));
    assert_eq!(h.position(), None);
    assert_eq!(h.entries().len(), 3);
    assert!(matches!(h.newer(), Recall::Unchanged));
}

#[test]
fn record_resets_browsing() {
    let mut h = HistoryCursor::new();
    h.record("a".to_string());
    h.record("b".to_string());
    h.older();
    h.older();
    h.record("  ".to_string());
    assert_eq!(h.position(), None);
    assert_eq!(h.older(), Some("b".to_string()));
}

use rust_terminal_emulator::command::{parse_cd, CdRequest};

#[test]
fn parse_cd_requests() {
    assert!(matches!(parse_cd("ls -l"), CdRequest::NotCd));
    assert!(matches!(parse_cd("cdrom"), CdRequest::NotCd));
    assert!(matches!(parse_cd("echo cd"), CdRequest::NotCd));
    assert!(matches!(parse_cd("cd"), CdRequest::Home));
    assert!(matches!(parse_cd("  cd   "), CdRequest::Home));
    assert!(matches!(parse_cd("cd -"), CdRequest::Previous));
    match parse_cd("cd  /nonexistent extra") {
        CdRequest::Path(p) => assert_eq!(p, "/nonexistent"),
        _ => panic!("expected a path"),
    }
    match parse_cd("cd\t../src") {
        CdRequest::Path(p) => assert_eq!(p, "../src"),
        _ => panic!("expected a path"),
    }
}
