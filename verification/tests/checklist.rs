use laun::config::{AgentConfig, AgentProvider, AppConfig, ConfigError, PrdConfig, WorkflowConfig};
use laun::decision::{extract_json_object, parse_loop_decision, LoopAction};
use laun::prd::{mark_item_done, normalize, PrdDocument};

fn agent(command: &str) -> AgentConfig {
    AgentConfig {
        provider: AgentProvider::Custom,
        command: command.to_string(),
        args: vec!["{model}".to_string(), "{prompt}".to_string()],
        model: "m".to_string(),
        visible_files: vec![],
        visible_tests: vec![],
        system_prompt: "sys".to_string(),
    }
}

fn config(max_iterations: usize) -> AppConfig {
    AppConfig {
        prd: PrdConfig { file: "PRD.md".to_string(), auto_mark_completed: true },
        workflow: WorkflowConfig {
            max_iterations,
            max_fix_attempts: 2,
            auto_commit: true,
            execution_tests: vec!["cargo test".to_string()],
        },
        loop_agent: agent("planner"),
        worker_agent: agent("worker"),
    }
}

#[test]
fn parse_recognizes_unchecked_and_checked_lines() {
    let text = "# Title\n- [ ] First task\n  - [x] Done task\n- [X] Also done\nplain prose\n";
    let doc = PrdDocument::parse(text);
    assert_eq!(doc.items.len(), 3);
    assert_eq!(doc.items[0].text, "First task");
    assert!(!doc.items[0].checked);
    assert_eq!(doc.items[1].text, "Done task");
    assert!(doc.items[1].checked);
    assert_eq!(doc.items[2].text, "Also done");
    assert!(doc.items[2].checked);
}

#[test]
fn parse_ignores_lines_without_marker() {
    let doc = PrdDocument::parse("-[ ] no space\n- [] bad\n* [ ] star\n");
    assert_eq!(doc.items.len(), 0);
}

#[test]
fn unchecked_items_keeps_document_order() {
    let doc = PrdDocument::parse("- [ ] a\n- [x] b\n- [ ] c\n");
    let unchecked = doc.unchecked_items();
    assert_eq!(unchecked.len(), 2);
    assert_eq!(unchecked[0].text, "a");
    assert_eq!(unchecked[1].text, "c");
}

#[test]
fn mark_done_rewrites_first_match_in_place() {
    let text = "## Plan\n  - [ ] Add Feature One\n- [ ] add feature\nprose\n";
    let out = mark_item_done(text, "ADD FEATURE").expect("should match");
    assert_eq!(out, "## Plan\n  - [x] Add Feature One\n- [ ] add feature\nprose\n");
}

#[test]
fn mark_done_matches_case_insensitively_by_substring() {
    let text = "- [ ] Implement the PARSER module\n";
    let out = mark_item_done(text, "parser").expect("should match");
    assert_eq!(out, "- [x] Implement the PARSER module\n");
}

#[test]
fn mark_done_without_match_returns_none() {
    let text = "- [ ] alpha\n- [x] beta\n";
    assert!(mark_item_done(text, "gamma").is_none());
}

#[test]
fn mark_done_ignores_checked_lines() {
    let text = "- [x] done thing\n";
    assert!(mark_item_done(text, "done thing").is_none());
}

#[test]
fn mark_done_preserves_absent_trailing_newline() {
    let out = mark_item_done("- [ ] solo", "solo").expect("should match");
    assert_eq!(out, "- [x] solo");
}

#[test]
fn mark_done_keeps_non_item_lines_byte_identical() {
    let text = "alpha\n\n```\n- [ ] another pending entry\n```\n- [ ] real\n";
    let out = mark_item_done(text, "real").expect("should match");
    for (a, b) in text.lines().zip(out.lines()) {
        if !a.contains("real") {
            assert_eq!(a, b);
        }
    }
}

#[test]
fn normalize_trims_and_lowercases() {
    assert_eq!(normalize("  MiXeD Case \t"), "mixed case");
}

#[test]
fn normalize_handles_unicode_whitespace_and_case() {
    assert_eq!(normalize("\u{a0}\u{c4}bc "), "\u{e4}bc");
}

#[test]
fn mark_done_rewrites_crlf_endings_as_newlines() {
    let out = mark_item_done("- [ ] a\r\nrest\r\n", "a").expect("should match");
    assert_eq!(out, "- [x] a\nrest\n");
}

#[test]
fn decision_strict_json_parses() {
    let d = parse_loop_decision(
        "{\"action\":\"done\",\"reason\":\"all finished\"}",
    );
    assert_eq!(d.action, LoopAction::Done);
    assert_eq!(d.reason.as_deref(), Some("all finished"));
    assert!(d.target_item.is_none());
}

#[test]
fn decision_embedded_json_parses() {
    let d = parse_loop_decision(
        "Sure thing! {\"action\":\"delegate\",\"target_item\":\"Add feature\"} — done.",
    );
    assert_eq!(d.action, LoopAction::Delegate);
    assert_eq!(d.target_item.as_deref(), Some("Add feature"));
    assert!(d.worker_prompt.is_none());
}

#[test]
fn decision_fallback_synthesizes_delegation() {
    let d = parse_loop_decision("Just do the next thing.");
    assert_eq!(d.action, LoopAction::Delegate);
    assert_eq!(d.worker_prompt.as_deref(), Some("Just do the next thing."));
    assert!(d.target_item.is_none());
    assert!(d.commit_message.is_none());
    assert!(d.reason.is_none());
}

#[test]
fn decision_fallback_trims_the_raw_text() {
    let d = parse_loop_decision("  keep moving \n");
    assert_eq!(d.action, LoopAction::Delegate);
    assert_eq!(d.worker_prompt.as_deref(), Some("keep moving"));
}

#[test]
fn decision_null_fields_count_as_absent() {
    let d = parse_loop_decision("{\"action\":\"delegate\",\"target_item\":null}");
    assert_eq!(d.action, LoopAction::Delegate);
    assert!(d.target_item.is_none());
}

#[test]
fn decision_wrong_field_type_falls_back() {
    let d = parse_loop_decision("{\"action\":\"delegate\",\"target_item\":7}");
    assert_eq!(d.action, LoopAction::Delegate);
    assert_eq!(
        d.worker_prompt.as_deref(),
        Some("{\"action\":\"delegate\",\"target_item\":7}")
    );
}

#[test]
fn decision_unknown_action_falls_back() {
    let d = parse_loop_decision("{\"action\":\"retreat\"}");
    assert_eq!(d.action, LoopAction::Delegate);
    assert_eq!(d.worker_prompt.as_deref(), Some("{\"action\":\"retreat\"}"));
}

#[test]
fn extract_json_object_spans_first_brace_to_last() {
    assert_eq!(
        extract_json_object("ab {\"k\": {\"n\": 1}} tail").as_deref(),
        Some("{\"k\": {\"n\": 1}}")
    );
    assert!(extract_json_object("no braces here").is_none());
    assert!(extract_json_object("} reversed {").is_none());
}

#[test]
fn validate_accepts_reasonable_config() {
    assert!(config(5).validate().is_ok());
}

#[test]
fn validate_rejects_zero_iterations() {
    let cfg = config(0);
    assert_eq!(cfg.validate(), Err(ConfigError::ZeroMaxIterations));
}

#[test]
fn validate_rejects_blank_loop_command() {
    let mut cfg = config(5);
    cfg.loop_agent.command = "   ".to_string();
    assert_eq!(cfg.validate(), Err(ConfigError::EmptyLoopCommand));
}

#[test]
fn validate_rejects_blank_worker_command() {
    let mut cfg = config(5);
    cfg.worker_agent.command = "\t".to_string();
    assert_eq!(cfg.validate(), Err(ConfigError::EmptyWorkerCommand));
}

#[test]
fn default_config_is_valid() {
    let cfg = AppConfig::default();
    assert!(cfg.validate().is_ok());
    assert_eq!(cfg.workflow.max_iterations, 12);
    assert_eq!(cfg.workflow.max_fix_attempts, 2);
    assert_eq!(cfg.prd.file, "PRD.md");
    assert_eq!(cfg.workflow.execution_tests, vec!["cargo test".to_string()]);
}
