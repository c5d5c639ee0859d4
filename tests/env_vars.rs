use hangar_dashboard::env::{parse_env_text, EnvVars};
use hangar_dashboard::forms::EnvEditor;

fn pairs(vars: &EnvVars) -> Vec<(String, String)> {
    let mut v = vars.entries().clone();
    v.sort();
    v
}

fn owned(items: &[(&str, &str)]) -> Vec<(String, String)> {
    let mut v: Vec<(String, String)> =
        items.iter().map(|(k, v)| (k.to_string(), v.to_string())).collect();
    v.sort();
    v
}

#[test]
fn env_text_scenario() {
    let vars = parse_env_text("A=1\nBAD\nB = 2 \n=skip");
    assert_eq!(pairs(&vars), owned(&[("A", "1"), ("B", "2")]));
}

#[test]
fn later_line_wins() {
    let vars = parse_env_text("A=1\nB=x\nA=2");
    assert_eq!(vars.entries().len(), 2);
    assert_eq!(pairs(&vars), owned(&[("A", "2"), ("B", "x")]));
}

#[test]
fn value_keeps_later_equals_signs() {
    let vars = parse_env_text("  URL = postgres://h/db?x=1  \r\n");
    assert_eq!(pairs(&vars), owned(&[("URL", "postgres://h/db?x=1")]));
}

#[test]
fn blank_and_malformed_lines_are_dropped() {
    assert!(parse_env_text("").is_empty());
    assert!(parse_env_text("\n\n   \n= v\nnoequals\n  =  ").is_empty());
    let vars = parse_env_text("K=");
    assert_eq!(pairs(&vars), owned(&[("K", "")]));
}

#[test]
fn env_round_trip() {
    let mut vars = EnvVars::new();
    vars.insert("DATABASE_URL".to_string(), "mysql://u:p@h:3306/d".to_string());
    vars.insert("EMPTY".to_string(), String::new());
    vars.insert("MODE".to_string(), "a b=c".to_string());
    vars.insert("EMPTY".to_string(), "now set".to_string());
    let text = vars.to_text();
    assert_eq!(text, "DATABASE_URL=mysql://u:p@h:3306/d\nEMPTY=now set\nMODE=a b=c");
    let back = parse_env_text(&text);
    assert_eq!(pairs(&back), pairs(&vars));
}

#[test]
fn editor_is_seeded_from_variables() {
    let vars = parse_env_text("A=1\nB=2");
    let editor = EnvEditor::new(Some(&vars));
    assert_eq!(editor.buffer, "A=1\nB=2");
    assert_eq!(EnvEditor::new(None).buffer, "");
}

#[test]
fn owner_saves_env_text() {
    let mut editor = EnvEditor::new(None);
    editor.edit("A=1\nBAD\nB = 2 \n=skip".to_string());
    let sent = editor.submit().expect("a save is sent");
    assert_eq!(pairs(&sent), owned(&[("A", "1"), ("B", "2")]));
    assert!(editor.loading);
    assert!(editor.submit().is_none());
    let reload = editor.finish(Ok(()));
    assert!(reload);
    assert!(editor.success);
    assert!(!editor.loading);
    editor.edit("A=3".to_string());
    assert!(!editor.success);
}
