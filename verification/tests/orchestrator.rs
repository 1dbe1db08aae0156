use laun::agent::{replace_template, CliAgent};
use laun::config::{AgentConfig, AgentProvider, AppConfig, PrdConfig, WorkflowConfig};
use laun::prd::PrdDocument;
use laun::prompt::{build_loop_prompt, build_worker_prompt, format_lines};
use laun::runner::{shell_quote, LoopEffect, LoopEvent, LoopRunner, RunOptions, RunSummary};
use laun::text::truncate;

fn agent(command: &str) -> AgentConfig {
    AgentConfig {
        provider: AgentProvider::Custom,
        command: command.to_string(),
        args: vec!["--model".to_string(), "{model}".to_string(), "{prompt}".to_string()],
        model: "m1".to_string(),
        visible_files: vec!["src/".to_string()],
        visible_tests: vec!["cargo test".to_string()],
        system_prompt: "You orchestrate.".to_string(),
    }
}

fn config(max_iterations: usize, auto_commit: bool, auto_mark: bool, tests: Vec<String>) -> AppConfig {
    AppConfig {
        prd: PrdConfig { file: "PRD.md".to_string(), auto_mark_completed: auto_mark },
        workflow: WorkflowConfig {
            max_iterations,
            max_fix_attempts: 2,
            auto_commit,
            execution_tests: tests,
        },
        loop_agent: agent("planner"),
        worker_agent: agent("worker"),
    }
}

fn options(dry_run: bool) -> RunOptions {
    RunOptions { max_iterations_override: None, dry_run }
}

#[test]
fn replace_template_substitutes_all_tokens() {
    let r = replace_template("run {model} on {prompt} via {prompt_file}", "gpt", "hi", "/tmp/p");
    assert_eq!(r, "run gpt on hi via /tmp/p");
}

#[test]
fn render_args_renders_each_template() {
    let a = CliAgent::new(agent("x"));
    let args = a.render_args("the prompt", "/tmp/file");
    assert_eq!(args, vec!["--model".to_string(), "m1".to_string(), "the prompt".to_string()]);
}

#[test]
fn shell_quote_escapes_single_quotes() {
    assert_eq!(shell_quote("it's done"), "'it'\\''s done'");
    assert_eq!(shell_quote("plain"), "'plain'");
}

#[test]
fn truncate_caps_long_text() {
    assert_eq!(truncate("abcdef", 4), "abcd...");
    assert_eq!(truncate("abc", 4), "abc");
}

#[test]
fn format_lines_handles_empty_and_full_lists() {
    assert_eq!(format_lines(&vec![]), "(none)");
    assert_eq!(
        format_lines(&vec!["a".to_string(), "b".to_string()]),
        "- a\n- b"
    );
}

#[test]
fn loop_prompt_lists_completed_and_remaining_items() {
    let cfg = config(3, false, false, vec!["cargo test".to_string()]);
    let prd = PrdDocument::parse("- [x] shipped\n- [ ] pending\n");
    let p = build_loop_prompt(&cfg, "proj/PRD.md", &prd, "earlier context", &cfg.workflow.execution_tests);
    assert!(p.starts_with("You orchestrate."));
    assert!(p.contains("PRD file: proj/PRD.md"));
    assert!(p.contains("Completed PRD items:\n- shipped"));
    assert!(p.contains("Remaining PRD items:\n- pending"));
    assert!(p.contains("Prior orchestration context:\nearlier context"));
    assert!(p.contains("Respond with JSON only:"));
}

#[test]
fn worker_prompt_includes_failure_block_only_on_retry() {
    let cfg = config(3, false, false, vec![]);
    let clean = build_worker_prompt(&cfg, "item", "task", None, &vec![]);
    assert!(!clean.contains("Previous test failures"));
    let retry = build_worker_prompt(&cfg, "item", "task", Some("boom"), &vec![]);
    assert!(retry.contains("Previous test failures to fix first:\nboom"));
}

#[test]
fn dry_run_reads_only_and_reports_zero_side_effects() {
    let cfg = config(2, true, true, vec!["cargo test".to_string()]);
    let runner = LoopRunner::new(cfg, "proj/laun.toml".to_string());
    let (mut run, mut eff) = runner.start(&options(true));
    let mut reads = 0;
    let summary: RunSummary;
    loop {
        match eff {
            LoopEffect::ReadChecklist => {
                reads += 1;
                eff = run.step(LoopEvent::ChecklistText {
                    content: "- [ ] a\n- [ ] b\n".to_string(),
                });
            }
            LoopEffect::Finished { summary: s } => {
                summary = s;
                break;
            }
            _ => panic!("dry run asked for a side effect"),
        }
    }
    assert_eq!(reads, 2);
    assert_eq!(summary.iterations, 2);
    assert_eq!(summary.commits, 0);
    assert_eq!(summary.completed_items, 0);
}

#[test]
fn exhausted_checklist_stops_at_zero_iterations() {
    let cfg = config(100, true, true, vec!["cargo test".to_string()]);
    let runner = LoopRunner::new(cfg, "laun.toml".to_string());
    let (mut run, eff) = runner.start(&options(false));
    assert!(matches!(eff, LoopEffect::ReadChecklist));
    let eff = run.step(LoopEvent::ChecklistText {
        content: "# done\n- [x] all finished\n".to_string(),
    });
    match eff {
        LoopEffect::Finished { summary } => {
            assert_eq!(summary.iterations, 0);
            assert_eq!(summary.commits, 0);
            assert_eq!(summary.completed_items, 0);
        }
        _ => panic!("expected the run to finish"),
    }
}

#[test]
fn planner_done_stops_with_current_step() {
    let cfg = config(9, false, false, vec![]);
    let runner = LoopRunner::new(cfg, "laun.toml".to_string());
    let (mut run, _) = runner.start(&options(false));
    let eff = run.step(LoopEvent::ChecklistText { content: "- [ ] a\n".to_string() });
    assert!(matches!(eff, LoopEffect::InvokeAgent { worker: false, .. }));
    let eff = run.step(LoopEvent::AgentOutput {
        stdout: "{\"action\":\"done\",\"reason\":\"nothing left\"}".to_string(),
    });
    match eff {
        LoopEffect::Finished { summary } => assert_eq!(summary.iterations, 1),
        _ => panic!("expected the run to finish"),
    }
}

#[test]
fn iteration_bound_runs_exactly_three_iterations() {
    let cfg = config(3, false, false, vec!["cargo test".to_string()]);
    let runner = LoopRunner::new(cfg, "laun.toml".to_string());
    let (mut run, mut eff) = runner.start(&options(false));
    let mut planner_calls = 0;
    let summary: RunSummary;
    loop {
        match eff {
            LoopEffect::ReadChecklist => {
                eff = run.step(LoopEvent::ChecklistText { content: "- [ ] a\n".to_string() });
            }
            LoopEffect::InvokeAgent { worker: false, .. } => {
                planner_calls += 1;
                eff = run.step(LoopEvent::AgentOutput {
                    stdout: "{\"action\":\"delegate\",\"target_item\":\"a\"}".to_string(),
                });
            }
            LoopEffect::InvokeAgent { worker: true, .. } => {
                eff = run.step(LoopEvent::AgentOutput { stdout: "did it".to_string() });
            }
            LoopEffect::RunShell { .. } => {
                eff = run.step(LoopEvent::ShellResult {
                    success: true,
                    output: "ok".to_string(),
                });
            }
            LoopEffect::Finished { summary: s } => {
                summary = s;
                break;
            }
            LoopEffect::WriteChecklist { .. } => panic!("marking is off"),
        }
    }
    assert_eq!(planner_calls, 3);
    assert_eq!(summary.iterations, 3);
    assert_eq!(summary.commits, 0);
    assert_eq!(summary.completed_items, 0);
}

#[test]
fn retry_exhaustion_runs_suite_three_times_without_commit_or_mark() {
    let cfg = config(1, true, true, vec!["cargo test".to_string()]);
    let runner = LoopRunner::new(cfg, "laun.toml".to_string());
    let (mut run, mut eff) = runner.start(&options(false));
    let mut test_runs = 0;
    let mut worker_calls = 0;
    let summary: RunSummary;
    loop {
        match eff {
            LoopEffect::ReadChecklist => {
                eff = run.step(LoopEvent::ChecklistText { content: "- [ ] a\n".to_string() });
            }
            LoopEffect::InvokeAgent { worker: false, .. } => {
                eff = run.step(LoopEvent::AgentOutput {
                    stdout: "{\"action\":\"delegate\",\"target_item\":\"a\"}".to_string(),
                });
            }
            LoopEffect::InvokeAgent { worker: true, .. } => {
                worker_calls += 1;
                eff = run.step(LoopEvent::AgentOutput { stdout: "tried".to_string() });
            }
            LoopEffect::RunShell { ref command } => {
                assert_eq!(command.as_str(), "cargo test", "no git command may run");
                test_runs += 1;
                eff = run.step(LoopEvent::ShellResult {
                    success: false,
                    output: "assertion failed".to_string(),
                });
            }
            LoopEffect::Finished { summary: s } => {
                summary = s;
                break;
            }
            LoopEffect::WriteChecklist { .. } => panic!("failed iteration must not mark"),
        }
    }
    assert_eq!(test_runs, 3, "one initial run and two fix attempts");
    assert_eq!(worker_calls, 3, "one delegation and two fix attempts");
    assert_eq!(summary.iterations, 1);
    assert_eq!(summary.commits, 0);
    assert_eq!(summary.completed_items, 0);
}

#[test]
fn zero_fix_attempts_means_a_single_test_run() {
    let mut cfg = config(1, true, true, vec!["cargo test".to_string()]);
    cfg.workflow.max_fix_attempts = 0;
    let runner = LoopRunner::new(cfg, "laun.toml".to_string());
    let (mut run, mut eff) = runner.start(&options(false));
    let mut test_runs = 0;
    loop {
        match eff {
            LoopEffect::ReadChecklist => {
                eff = run.step(LoopEvent::ChecklistText { content: "- [ ] a\n".to_string() });
            }
            LoopEffect::InvokeAgent { .. } => {
                eff = run.step(LoopEvent::AgentOutput {
                    stdout: "{\"action\":\"delegate\"}".to_string(),
                });
            }
            LoopEffect::RunShell { .. } => {
                test_runs += 1;
                eff = run.step(LoopEvent::ShellResult {
                    success: false,
                    output: "broken".to_string(),
                });
            }
            LoopEffect::Finished { summary } => {
                assert_eq!(summary.commits, 0);
                assert_eq!(summary.completed_items, 0);
                break;
            }
            LoopEffect::WriteChecklist { .. } => panic!("failed iteration must not mark"),
        }
    }
    assert_eq!(test_runs, 1, "no retries with a zero fix budget");
}

#[test]
fn passing_tests_commit_and_mark_the_item() {
    let cfg = config(1, true, true, vec!["cargo test".to_string()]);
    let runner = LoopRunner::new(cfg, "laun.toml".to_string());
    let (mut run, mut eff) = runner.start(&options(false));
    let mut shell_commands: Vec<String> = Vec::new();
    let mut written: Option<String> = None;
    let summary: RunSummary;
    loop {
        match eff {
            LoopEffect::ReadChecklist => {
                eff = run.step(LoopEvent::ChecklistText {
                    content: "- [ ] add feature\n".to_string(),
                });
            }
            LoopEffect::InvokeAgent { worker: false, .. } => {
                eff = run.step(LoopEvent::AgentOutput {
                    stdout: "{\"action\":\"delegate\",\"target_item\":\"add feature\",\"commit_message\":\"feat: add it\"}".to_string(),
                });
            }
            LoopEffect::InvokeAgent { worker: true, .. } => {
                eff = run.step(LoopEvent::AgentOutput { stdout: "done".to_string() });
            }
            LoopEffect::RunShell { command } => {
                let reply = if command == "cargo test" {
                    "tests ok"
                } else if command == "git status --porcelain" {
                    " M src/lib.rs"
                } else if command == "git rev-parse --short HEAD" {
                    "abc1234"
                } else {
                    ""
                };
                shell_commands.push(command);
                eff = run.step(LoopEvent::ShellResult {
                    success: true,
                    output: reply.to_string(),
                });
            }
            LoopEffect::WriteChecklist { content } => {
                written = Some(content);
                eff = run.step(LoopEvent::ChecklistWritten);
            }
            LoopEffect::Finished { summary: s } => {
                summary = s;
                break;
            }
        }
    }
    assert_eq!(
        shell_commands,
        vec![
            "cargo test".to_string(),
            "git status --porcelain".to_string(),
            "git add -A".to_string(),
            "git commit -m 'feat: add it'".to_string(),
            "git rev-parse --short HEAD".to_string(),
        ]
    );
    assert_eq!(written.as_deref(), Some("- [x] add feature\n"));
    assert_eq!(summary.iterations, 1);
    assert_eq!(summary.commits, 1);
    assert_eq!(summary.completed_items, 1);
}

#[test]
fn clean_tree_skips_commit_commands() {
    let cfg = config(1, true, false, vec![]);
    let runner = LoopRunner::new(cfg, "laun.toml".to_string());
    let (mut run, mut eff) = runner.start(&options(false));
    let mut shell_commands: Vec<String> = Vec::new();
    let summary: RunSummary;
    loop {
        match eff {
            LoopEffect::ReadChecklist => {
                eff = run.step(LoopEvent::ChecklistText { content: "- [ ] a\n".to_string() });
            }
            LoopEffect::InvokeAgent { worker: false, .. } => {
                eff = run.step(LoopEvent::AgentOutput {
                    stdout: "{\"action\":\"delegate\"}".to_string(),
                });
            }
            LoopEffect::InvokeAgent { worker: true, .. } => {
                eff = run.step(LoopEvent::AgentOutput { stdout: "done".to_string() });
            }
            LoopEffect::RunShell { command } => {
                shell_commands.push(command);
                eff = run.step(LoopEvent::ShellResult {
                    success: true,
                    output: "".to_string(),
                });
            }
            LoopEffect::Finished { summary: s } => {
                summary = s;
                break;
            }
            LoopEffect::WriteChecklist { .. } => panic!("marking is off"),
        }
    }
    assert_eq!(shell_commands, vec!["git status --porcelain".to_string()]);
    assert_eq!(summary.commits, 0);
}

#[test]
fn prd_path_joins_the_config_directory() {
    assert_eq!(laun::runner::prd_path_of("proj/sub/laun.toml", "PRD.md"), "proj/sub/PRD.md");
    assert_eq!(laun::runner::prd_path_of("laun.toml", "PRD.md"), "PRD.md");
}

#[test]
fn max_iterations_override_replaces_configured_bound() {
    let cfg = config(50, true, true, vec![]);
    let runner = LoopRunner::new(cfg, "laun.toml".to_string());
    let (_run, eff) = runner.start(&RunOptions {
        max_iterations_override: Some(0),
        dry_run: false,
    });
    match eff {
        LoopEffect::Finished { summary } => assert_eq!(summary.iterations, 0),
        _ => panic!("a zero bound finishes at once"),
    }
}
