//! The loop orchestration state machine. One run is a sequence of small
//! transitions: the machine hands the caller an effect (read the checklist,
//! invoke an agent, run a shell command, write the checklist), the caller
//! performs it and hands back the outcome as an event, and the machine takes
//! its next step. Every decision — when to stop, what to delegate, how often
//! to retry failing tests, when to commit and when to mark an item done —
//! is taken here; the caller only moves bytes. A dry run takes no effect
//! other than reading the checklist.
use crate::agent::spec_replace;
use crate::agent::replace;
use crate::config::AppConfig;
use crate::decision::{spec_parse_decision, parse_loop_decision, LoopAction};
use crate::prd::{
    has_unchecked, lemma_unchecked_of_len, mark_item_done, spec_mark, spec_parse, unchecked_of,
    PrdDocument,
};
use crate::prompt::{
    build_loop_prompt, build_worker_prompt, spec_loop_prompt, spec_worker_prompt,
};
use crate::text::{find_last, rfind_char, trim_str, trimmed};
use vstd::pervasive::unreached;
use vstd::prelude::*;
use vstd::string::StrSliceExecFns;
use vstd::string::StringExecFns;

verus! {

/// Per-invocation options: an iteration bound overriding the configured one,
/// and whether this is a dry run.
pub struct RunOptions {
    pub max_iterations_override: Option<usize>,
    pub dry_run: bool,
}

/// Totals reported to the caller at the end of a run.
#[derive(Clone, Copy, PartialEq, Eq, Structural, Debug)]
pub struct RunSummary {
    pub iterations: usize,
    pub completed_items: usize,
    pub commits: usize,
}

impl Default for RunSummary {
    /// A fresh summary: nothing has happened yet.
    fn default() -> (r: RunSummary)
        ensures
            r.iterations == 0 && r.completed_items == 0 && r.commits == 0,
    {
        RunSummary { iterations: 0, completed_items: 0, commits: 0 }
    }
}

/// What the machine waits for within an iteration.
pub enum Mode {
    /// Waiting for the checklist text that opens the iteration.
    Loading,
    /// Waiting for the planner's output; the first unchecked item is the
    /// default target.
    AwaitPlanner { first_unchecked: String },
    /// Waiting for the implementer's output on the initial delegation.
    AwaitWorker { target: String, task: String, commit_message: Option<String> },
    /// Waiting for the result of test command `cmd_idx`; `attempt` fix
    /// attempts have been spent, `acc` holds the output so far.
    AwaitTest {
        target: String,
        task: String,
        commit_message: Option<String>,
        attempt: usize,
        cmd_idx: usize,
        acc: String,
    },
    /// Waiting for the implementer's output on a fix attempt.
    AwaitFixer { target: String, task: String, commit_message: Option<String>, attempt: usize },
    /// Waiting for the change-detection output.
    AwaitStatus { target: String, commit_message: Option<String> },
    /// Waiting for the stage-all command.
    AwaitAdd { target: String, message: String },
    /// Waiting for the commit command.
    AwaitCommit { target: String, message: String },
    /// Waiting for the short commit id.
    AwaitRev { target: String },
    /// Waiting for the checklist text to mark the finished item in.
    AwaitMarkText { target: String, commit_display: String },
    /// Waiting for the rewritten checklist to be stored.
    AwaitMarkWrite { target: String, commit_display: String },
    /// The run is over.
    Finished,
}

/// Spec-level image of `Mode`.
pub ghost enum ModeV {
    Loading,
    AwaitPlanner { first_unchecked: Seq<char> },
    AwaitWorker { target: Seq<char>, task: Seq<char>, commit_message: Option<Seq<char>> },
    AwaitTest {
        target: Seq<char>,
        task: Seq<char>,
        commit_message: Option<Seq<char>>,
        attempt: usize,
        cmd_idx: usize,
        acc: Seq<char>,
    },
    AwaitFixer {
        target: Seq<char>,
        task: Seq<char>,
        commit_message: Option<Seq<char>>,
        attempt: usize,
    },
    AwaitStatus { target: Seq<char>, commit_message: Option<Seq<char>> },
    AwaitAdd { target: Seq<char>, message: Seq<char> },
    AwaitCommit { target: Seq<char>, message: Seq<char> },
    AwaitRev { target: Seq<char> },
    AwaitMarkText { target: Seq<char>, commit_display: Seq<char> },
    AwaitMarkWrite { target: Seq<char>, commit_display: Seq<char> },
    Finished,
}

impl View for Mode {
    type V = ModeV;

    open spec fn view(&self) -> ModeV {
        match self {
            Mode::Loading => ModeV::Loading,
            Mode::AwaitPlanner { first_unchecked } => ModeV::AwaitPlanner {
                first_unchecked: first_unchecked@,
            },
            Mode::AwaitWorker { target, task, commit_message } => ModeV::AwaitWorker {
                target: target@,
                task: task@,
                commit_message: commit_message.deep_view(),
            },
            Mode::AwaitTest { target, task, commit_message, attempt, cmd_idx, acc } => {
                ModeV::AwaitTest {
                    target: target@,
                    task: task@,
                    commit_message: commit_message.deep_view(),
                    attempt: *attempt,
                    cmd_idx: *cmd_idx,
                    acc: acc@,
                }
            },
            Mode::AwaitFixer { target, task, commit_message, attempt } => ModeV::AwaitFixer {
                target: target@,
                task: task@,
                commit_message: commit_message.deep_view(),
                attempt: *attempt,
            },
            Mode::AwaitStatus { target, commit_message } => ModeV::AwaitStatus {
                target: target@,
                commit_message: commit_message.deep_view(),
            },
            Mode::AwaitAdd { target, message } => ModeV::AwaitAdd {
                target: target@,
                message: message@,
            },
            Mode::AwaitCommit { target, message } => ModeV::AwaitCommit {
                target: target@,
                message: message@,
            },
            Mode::AwaitRev { target } => ModeV::AwaitRev { target: target@ },
            Mode::AwaitMarkText { target, commit_display } => ModeV::AwaitMarkText {
                target: target@,
                commit_display: commit_display@,
            },
            Mode::AwaitMarkWrite { target, commit_display } => ModeV::AwaitMarkWrite {
                target: target@,
                commit_display: commit_display@,
            },
            Mode::Finished => ModeV::Finished,
        }
    }
}

/// The outcome of one effect, handed back to the machine.
pub enum LoopEvent {
    /// The checklist file's current text.
    ChecklistText { content: String },
    /// An agent's captured, trimmed standard output.
    AgentOutput { stdout: String },
    /// A shell command's exit condition and merged, trimmed output.
    ShellResult { success: bool, output: String },
    /// The rewritten checklist was stored.
    ChecklistWritten,
}

/// Spec-level image of `LoopEvent`.
pub ghost enum EventV {
    Text { content: Seq<char> },
    Agent { stdout: Seq<char> },
    Shell { success: bool, output: Seq<char> },
    Written,
}

impl View for LoopEvent {
    type V = EventV;

    open spec fn view(&self) -> EventV {
        match self {
            LoopEvent::ChecklistText { content } => EventV::Text { content: content@ },
            LoopEvent::AgentOutput { stdout } => EventV::Agent { stdout: stdout@ },
            LoopEvent::ShellResult { success, output } => EventV::Shell {
                success: *success,
                output: output@,
            },
            LoopEvent::ChecklistWritten => EventV::Written,
        }
    }
}

/// What the machine asks the caller to do next.
pub enum LoopEffect {
    /// Read the checklist file and reply with `ChecklistText`.
    ReadChecklist,
    /// Invoke the worker agent (or the planner when `worker` is false) with
    /// this prompt and reply with `AgentOutput`.
    InvokeAgent { worker: bool, prompt: String },
    /// Run this command through the shell and reply with `ShellResult`.
    RunShell { command: String },
    /// Overwrite the checklist file with this content and reply with
    /// `ChecklistWritten`.
    WriteChecklist { content: String },
    /// The run is over; this is its summary. No reply is expected.
    Finished { summary: RunSummary },
}

/// Spec-level image of `LoopEffect`.
pub ghost enum EffectV {
    Read,
    Agent { worker: bool, prompt: Seq<char> },
    Shell { command: Seq<char> },
    Write { content: Seq<char> },
    Finished { summary: RunSummary },
}

impl View for LoopEffect {
    type V = EffectV;

    open spec fn view(&self) -> EffectV {
        match self {
            LoopEffect::ReadChecklist => EffectV::Read,
            LoopEffect::InvokeAgent { worker, prompt } => EffectV::Agent {
                worker: *worker,
                prompt: prompt@,
            },
            LoopEffect::RunShell { command } => EffectV::Shell { command: command@ },
            LoopEffect::WriteChecklist { content } => EffectV::Write { content: content@ },
            LoopEffect::Finished { summary } => EffectV::Finished { summary: *summary },
        }
    }
}

/// The mutable half of a run's state, at spec level.
pub ghost struct RunV {
    pub step: usize,
    pub summary: RunSummary,
    pub loop_context: Seq<char>,
    pub mode: ModeV,
}

/// The worker task used when the planner supplies none.
pub open spec fn spec_default_task(target: Seq<char>) -> Seq<char> {
    "Implement PRD item: "@ + target + ". Keep changes scoped and verify with tests."@
}

/// The commit message used when the planner supplies none.
pub open spec fn spec_default_commit_message(target: Seq<char>) -> Seq<char> {
    "feat: complete PRD item: "@ + target
}

/// The context handed to the next iteration after a completed item.
pub open spec fn spec_completed_context(target: Seq<char>, commit_display: Seq<char>) -> Seq<
    char,
> {
    "Completed item `"@ + target + "`. Commit: "@ + commit_display
}

/// The context handed to the next iteration after exhausted fix attempts.
pub open spec fn spec_failed_context(target: Seq<char>, output: Seq<char>) -> Seq<char> {
    "Previous attempt failed for item `"@ + target + "`.\nTest output:\n"@ + output
}

/// One test command's contribution to the accumulated output.
pub open spec fn spec_test_chunk(cmd: Seq<char>, output: Seq<char>) -> Seq<char> {
    "$ "@ + cmd + "\n"@ + output + "\n"@
}

/// `s` wrapped in single quotes, with every inner quote closed, escaped and
/// reopened, safe to splice into a shell command line.
pub open spec fn spec_shell_quote(s: Seq<char>) -> Seq<char> {
    "'"@ + spec_replace(s, "'"@, "'\\''"@) + "'"@
}

/// The commit command for a message.
pub open spec fn spec_commit_command(msg: Seq<char>) -> Seq<char> {
    "git commit -m "@ + spec_shell_quote(msg)
}

/// The checklist path derived from the configuration file's directory.
pub open spec fn spec_prd_path(config_path: Seq<char>, file: Seq<char>) -> Seq<char> {
    let k = find_last(config_path, '/');
    if k >= 0 {
        config_path.subrange(0, k + 1) + file
    } else {
        file
    }
}

/// Advance past the end of iteration `step`: the next iteration when the
/// budget allows one, the finished state otherwise.
pub open spec fn spec_advance(
    max_iterations: usize,
    step: usize,
    summary: RunSummary,
    loop_context: Seq<char>,
) -> (RunV, EffectV) {
    if step >= max_iterations {
        (
            RunV { step, summary, loop_context, mode: ModeV::Finished },
            EffectV::Finished { summary },
        )
    } else {
        (
            RunV { step: (step + 1) as usize, summary, loop_context, mode: ModeV::Loading },
            EffectV::Read,
        )
    }
}

/// Close iteration `step` after a completed item: record the step, set the
/// completion context, advance.
pub open spec fn spec_end_iteration(
    max_iterations: usize,
    step: usize,
    summary: RunSummary,
    target: Seq<char>,
    commit_display: Seq<char>,
) -> (RunV, EffectV) {
    spec_advance(
        max_iterations,
        step,
        RunSummary { iterations: step, ..summary },
        spec_completed_context(target, commit_display),
    )
}

/// Close iteration `step` after exhausted fix attempts: record the step, set
/// the failure context, advance without commit or mark.
pub open spec fn spec_fail_iteration(
    max_iterations: usize,
    step: usize,
    summary: RunSummary,
    target: Seq<char>,
    output: Seq<char>,
) -> (RunV, EffectV) {
    spec_advance(
        max_iterations,
        step,
        RunSummary { iterations: step, ..summary },
        spec_failed_context(target, output),
    )
}

/// After tests (and any commit) are done: mark the item when auto-marking is
/// on, else close the iteration.
pub open spec fn spec_to_mark(
    cfg: AppConfig,
    max_iterations: usize,
    step: usize,
    summary: RunSummary,
    loop_context: Seq<char>,
    target: Seq<char>,
    commit_display: Seq<char>,
) -> (RunV, EffectV) {
    if cfg.prd.auto_mark_completed {
        (
            RunV {
                step,
                summary,
                loop_context,
                mode: ModeV::AwaitMarkText { target, commit_display },
            },
            EffectV::Read,
        )
    } else {
        spec_end_iteration(max_iterations, step, summary, target, commit_display)
    }
}

/// After the test suite passed: detect changes when auto-commit is on, else
/// go mark the item, with no commit to display.
pub open spec fn spec_tests_passed(
    cfg: AppConfig,
    max_iterations: usize,
    step: usize,
    summary: RunSummary,
    loop_context: Seq<char>,
    target: Seq<char>,
    commit_message: Option<Seq<char>>,
) -> (RunV, EffectV) {
    if cfg.workflow.auto_commit {
        (
            RunV {
                step,
                summary,
                loop_context,
                mode: ModeV::AwaitStatus { target, commit_message },
            },
            EffectV::Shell { command: "git status --porcelain"@ },
        )
    } else {
        spec_to_mark(cfg, max_iterations, step, summary, loop_context, target, "none"@)
    }
}

/// After the implementer replied: start the test suite, which passes
/// immediately when no test commands are configured.
pub open spec fn spec_start_tests(
    cfg: AppConfig,
    max_iterations: usize,
    step: usize,
    summary: RunSummary,
    loop_context: Seq<char>,
    target: Seq<char>,
    task: Seq<char>,
    commit_message: Option<Seq<char>>,
) -> (RunV, EffectV) {
    let cmds = cfg.workflow.execution_tests.deep_view();
    if cmds.len() == 0 {
        spec_tests_passed(cfg, max_iterations, step, summary, loop_context, target, commit_message)
    } else {
        (
            RunV {
                step,
                summary,
                loop_context,
                mode: ModeV::AwaitTest {
                    target,
                    task,
                    commit_message,
                    attempt: 0,
                    cmd_idx: 0,
                    acc: Seq::empty(),
                },
            },
            EffectV::Shell { command: cmds[0] },
        )
    }
}

/// Which event a mode waits for.
pub open spec fn wants(m: ModeV, ev: EventV) -> bool {
    match m {
        ModeV::Loading => ev is Text,
        ModeV::AwaitPlanner { .. } => ev is Agent,
        ModeV::AwaitWorker { .. } => ev is Agent,
        ModeV::AwaitFixer { .. } => ev is Agent,
        ModeV::AwaitTest { .. } => ev is Shell,
        ModeV::AwaitStatus { .. } => ev is Shell,
        ModeV::AwaitAdd { .. } => ev is Shell,
        ModeV::AwaitCommit { .. } => ev is Shell,
        ModeV::AwaitRev { .. } => ev is Shell,
        ModeV::AwaitMarkText { .. } => ev is Text,
        ModeV::AwaitMarkWrite { .. } => ev is Written,
        ModeV::Finished => true,
    }
}

/// The machine's whole transition: from a state and the event it waited for
/// to the next state and the next effect. An event a mode does not wait for
/// (every pairing that `wants` excludes) leaves the state alone and reports
/// the summary, as the finished state does.
pub open spec fn spec_step(
    cfg: AppConfig,
    prd_path: Seq<char>,
    dry_run: bool,
    max_iterations: usize,
    s: RunV,
    ev: EventV,
) -> (RunV, EffectV) {
    let cmds = cfg.workflow.execution_tests.deep_view();
    match s.mode {
        ModeV::Loading => match ev {
            EventV::Text { content } => {
                let items = spec_parse(content);
                let unchecked = unchecked_of(items);
                if unchecked.len() == 0 {
                    (
                        RunV { mode: ModeV::Finished, ..s },
                        EffectV::Finished { summary: s.summary },
                    )
                } else if dry_run {
                    spec_end_iteration(
                        max_iterations,
                        s.step,
                        s.summary,
                        unchecked[0].text,
                        "none"@,
                    )
                } else {
                    (
                        RunV {
                            mode: ModeV::AwaitPlanner { first_unchecked: unchecked[0].text },
                            ..s
                        },
                        EffectV::Agent {
                            worker: false,
                            prompt: spec_loop_prompt(cfg, prd_path, items, s.loop_context, cmds),
                        },
                    )
                }
            },
            _ => (s, EffectV::Finished { summary: s.summary }),
        },
        ModeV::AwaitPlanner { first_unchecked } => match ev {
            EventV::Agent { stdout } => {
                let d = spec_parse_decision(stdout);
                if d.action == LoopAction::Done {
                    let summary = RunSummary { iterations: s.step, ..s.summary };
                    (
                        RunV { summary, mode: ModeV::Finished, ..s },
                        EffectV::Finished { summary },
                    )
                } else {
                    let target = match d.target_item {
                        Some(t) => t,
                        None => first_unchecked,
                    };
                    let task = match d.worker_prompt {
                        Some(w) => w,
                        None => spec_default_task(target),
                    };
                    (
                        RunV {
                            mode: ModeV::AwaitWorker {
                                target,
                                task,
                                commit_message: d.commit_message,
                            },
                            ..s
                        },
                        EffectV::Agent {
                            worker: true,
                            prompt: spec_worker_prompt(cfg, target, task, None, cmds),
                        },
                    )
                }
            },
            _ => (s, EffectV::Finished { summary: s.summary }),
        },
        ModeV::AwaitWorker { target, task, commit_message } => match ev {
            EventV::Agent { .. } => spec_start_tests(
                cfg,
                max_iterations,
                s.step,
                s.summary,
                s.loop_context,
                target,
                task,
                commit_message,
            ),
            _ => (s, EffectV::Finished { summary: s.summary }),
        },
        ModeV::AwaitTest { target, task, commit_message, attempt, cmd_idx, acc } => match ev {
            EventV::Shell { success, output } => {
                let acc2 = acc + spec_test_chunk(cmds[cmd_idx as int], output);
                if success {
                    if cmd_idx + 1 < cmds.len() {
                        (
                            RunV {
                                mode: ModeV::AwaitTest {
                                    target,
                                    task,
                                    commit_message,
                                    attempt,
                                    cmd_idx: (cmd_idx + 1) as usize,
                                    acc: acc2,
                                },
                                ..s
                            },
                            EffectV::Shell { command: cmds[cmd_idx + 1] },
                        )
                    } else {
                        spec_tests_passed(
                            cfg,
                            max_iterations,
                            s.step,
                            s.summary,
                            s.loop_context,
                            target,
                            commit_message,
                        )
                    }
                } else {
                    if attempt < cfg.workflow.max_fix_attempts {
                        (
                            RunV {
                                mode: ModeV::AwaitFixer {
                                    target,
                                    task,
                                    commit_message,
                                    attempt: (attempt + 1) as usize,
                                },
                                ..s
                            },
                            EffectV::Agent {
                                worker: true,
                                prompt: spec_worker_prompt(cfg, target, task, Some(acc2), cmds),
                            },
                        )
                    } else {
                        spec_fail_iteration(max_iterations, s.step, s.summary, target, acc2)
                    }
                }
            },
            _ => (s, EffectV::Finished { summary: s.summary }),
        },
        ModeV::AwaitFixer { target, task, commit_message, attempt } => match ev {
            EventV::Agent { .. } => (
                RunV {
                    mode: ModeV::AwaitTest {
                        target,
                        task,
                        commit_message,
                        attempt,
                        cmd_idx: 0,
                        acc: Seq::empty(),
                    },
                    ..s
                },
                EffectV::Shell { command: cmds[0] },
            ),
            _ => (s, EffectV::Finished { summary: s.summary }),
        },
        ModeV::AwaitStatus { target, commit_message } => match ev {
            EventV::Shell { output, .. } => {
                if trimmed(output).len() > 0 {
                    let msg = match commit_message {
                        Some(m) => m,
                        None => spec_default_commit_message(target),
                    };
                    (
                        RunV { mode: ModeV::AwaitAdd { target, message: msg }, ..s },
                        EffectV::Shell { command: "git add -A"@ },
                    )
                } else {
                    spec_to_mark(
                        cfg,
                        max_iterations,
                        s.step,
                        s.summary,
                        s.loop_context,
                        target,
                        "none"@,
                    )
                }
            },
            _ => (s, EffectV::Finished { summary: s.summary }),
        },
        ModeV::AwaitAdd { target, message } => match ev {
            EventV::Shell { .. } => (
                RunV { mode: ModeV::AwaitCommit { target, message }, ..s },
                EffectV::Shell { command: spec_commit_command(message) },
            ),
            _ => (s, EffectV::Finished { summary: s.summary }),
        },
        ModeV::AwaitCommit { target, .. } => match ev {
            EventV::Shell { .. } => (
                RunV { mode: ModeV::AwaitRev { target }, ..s },
                EffectV::Shell { command: "git rev-parse --short HEAD"@ },
            ),
            _ => (s, EffectV::Finished { summary: s.summary }),
        },
        ModeV::AwaitRev { target } => match ev {
            EventV::Shell { output, .. } => {
                let summary = RunSummary { commits: (s.summary.commits + 1) as usize, ..s.summary };
                spec_to_mark(
                    cfg,
                    max_iterations,
                    s.step,
                    summary,
                    s.loop_context,
                    target,
                    trimmed(output),
                )
            },
            _ => (s, EffectV::Finished { summary: s.summary }),
        },
        ModeV::AwaitMarkText { target, commit_display } => match ev {
            EventV::Text { content } => match spec_mark(content, target) {
                Some(new_content) => (
                    RunV { mode: ModeV::AwaitMarkWrite { target, commit_display }, ..s },
                    EffectV::Write { content: new_content },
                ),
                None => spec_end_iteration(
                    max_iterations,
                    s.step,
                    s.summary,
                    target,
                    commit_display,
                ),
            },
            _ => (s, EffectV::Finished { summary: s.summary }),
        },
        ModeV::AwaitMarkWrite { target, commit_display } => match ev {
            EventV::Written => {
                let summary = RunSummary {
                    completed_items: (s.summary.completed_items + 1) as usize,
                    ..s.summary
                };
                spec_end_iteration(max_iterations, s.step, summary, target, commit_display)
            },
            _ => (s, EffectV::Finished { summary: s.summary }),
        },
        ModeV::Finished => (s, EffectV::Finished { summary: s.summary }),
    }
}

/// Structural facts every reachable state keeps: the step counter sits
/// within the budget while the run is live, the summary counters never get
/// ahead of the iterations that produced them, and a dry run only ever reads.
pub open spec fn inv(max_iterations: usize, dry_run: bool, s: RunV) -> bool {
    &&& 1 <= s.step
    &&& (!(s.mode is Finished) ==> s.step <= max_iterations)
    &&& s.summary.iterations <= s.step
    &&& (!(s.mode is Finished) ==> s.summary.iterations < s.step)
    &&& s.summary.iterations <= max_iterations
    &&& (match s.mode {
        ModeV::AwaitMarkText { .. } | ModeV::AwaitMarkWrite { .. } => s.summary.commits <= s.step
            && s.summary.completed_items < s.step,
        ModeV::Finished => s.summary.commits <= s.step && s.summary.completed_items <= s.step,
        _ => s.summary.commits < s.step && s.summary.completed_items < s.step,
    })
    &&& ((s.mode is Loading || s.mode is Finished) ==> s.summary.commits
        <= s.summary.iterations && s.summary.completed_items <= s.summary.iterations)
    &&& (dry_run ==> s.summary.commits == 0 && s.summary.completed_items == 0 && (
    s.mode is Loading || s.mode is Finished))
}

/// Payload facts the transitions rely on: a live test phase points at a real
/// command and never exceeds the retry budget.
pub open spec fn wf_mode(cfg: AppConfig, s: RunV) -> bool {
    match s.mode {
        ModeV::AwaitTest { attempt, cmd_idx, .. } => cmd_idx
            < cfg.workflow.execution_tests.deep_view().len() && attempt
            <= cfg.workflow.max_fix_attempts,
        ModeV::AwaitFixer { attempt, .. } => cfg.workflow.execution_tests.deep_view().len() > 0
            && attempt <= cfg.workflow.max_fix_attempts,
        _ => true,
    }
}

/// The state a run starts in.
pub open spec fn spec_start_state(max_iterations: usize) -> RunV {
    RunV {
        step: 1,
        summary: RunSummary { iterations: 0, completed_items: 0, commits: 0 },
        loop_context: Seq::empty(),
        mode: if max_iterations == 0 {
            ModeV::Finished
        } else {
            ModeV::Loading
        },
    }
}

/// Entry point: holds the configuration and knows how to start a run.
pub struct LoopRunner {
    pub config: AppConfig,
    pub config_path: String,
}

/// The live state of one run: the fixed run parameters and the machine's
/// mutable state.
pub struct LoopRun {
    pub config: AppConfig,
    pub prd_path: String,
    pub dry_run: bool,
    pub max_iterations: usize,
    pub step: usize,
    pub summary: RunSummary,
    pub loop_context: String,
    pub mode: Mode,
}

impl LoopRun {
    /// The mutable half of the state, at spec level.
    pub open spec fn rv(&self) -> RunV {
        RunV {
            step: self.step,
            summary: self.summary,
            loop_context: self.loop_context@,
            mode: self.mode@,
        }
    }

    /// All invariants of a live run.
    pub open spec fn wf(&self) -> bool {
        inv(self.max_iterations, self.dry_run, self.rv()) && wf_mode(self.config, self.rv())
    }
}

fn completed_context(target: &str, commit_display: &str) -> (r: String)
    ensures
        r@ == spec_completed_context(target@, commit_display@),
{
    let mut out = String::from_str("Completed item `");
    out.append(target);
    out.append("`. Commit: ");
    out.append(commit_display);
    out
}

fn failed_context(target: &str, output: &str) -> (r: String)
    ensures
        r@ == spec_failed_context(target@, output@),
{
    let mut out = String::from_str("Previous attempt failed for item `");
    out.append(target);
    out.append("`.\nTest output:\n");
    out.append(output);
    out
}

fn default_task(target: &str) -> (r: String)
    ensures
        r@ == spec_default_task(target@),
{
    let mut out = String::from_str("Implement PRD item: ");
    out.append(target);
    out.append(". Keep changes scoped and verify with tests.");
    out
}

fn default_commit_message(target: &str) -> (r: String)
    ensures
        r@ == spec_default_commit_message(target@),
{
    let mut out = String::from_str("feat: complete PRD item: ");
    out.append(target);
    out
}

/// Quote a string for safe splicing into a shell command line.
pub fn shell_quote(input: &str) -> (r: String)
    ensures
        r@ == spec_shell_quote(input@),
{
    proof {
        reveal_strlit("'");
    }
    let mut out = String::from_str("'");
    let escaped = replace(input, "'", "'\\''");
    out.append(escaped.as_str());
    out.append("'");
    out
}

fn commit_command(msg: &str) -> (r: String)
    ensures
        r@ == spec_commit_command(msg@),
{
    let mut out = String::from_str("git commit -m ");
    let quoted = shell_quote(msg);
    out.append(quoted.as_str());
    out
}

/// The checklist path: the configuration file's directory joined with the
/// configured checklist file name.
pub fn prd_path_of(config_path: &str, file: &str) -> (r: String)
    ensures
        r@ == spec_prd_path(config_path@, file@),
{
    match rfind_char(config_path, '/') {
        Some(k) => {
            let n = config_path.unicode_len();
            proof {
                assert(k < n);
            }
            let mut out = String::from_str(config_path.substring_char(0, k + 1));
            out.append(file);
            out
        },
        None => String::from_str(file),
    }
}

fn clone_opt(o: &Option<String>) -> (r: Option<String>)
    ensures
        r.deep_view() == o.deep_view(),
{
    match o {
        Some(s) => Some(s.clone()),
        None => None,
    }
}

impl LoopRunner {
    pub fn new(config: AppConfig, config_path: String) -> (r: LoopRunner)
        ensures
            r.config == config,
            r.config_path == config_path,
    {
        LoopRunner { config, config_path }
    }

    /// Open a run: resolve the effective iteration bound and the checklist
    /// path, and hand out the first effect — reading the checklist, or the
    /// finished summary when the bound is zero.
    pub fn start(self, options: &RunOptions) -> (r: (LoopRun, LoopEffect))
        ensures
            r.0.config == self.config,
            r.0.prd_path@ == spec_prd_path(self.config_path@, self.config.prd.file@),
            r.0.dry_run == options.dry_run,
            r.0.max_iterations == (match options.max_iterations_override {
                Some(m) => m,
                None => self.config.workflow.max_iterations,
            }),
            r.0.rv() == spec_start_state(r.0.max_iterations),
            r.0.wf(),
            r.1@ == (if r.0.max_iterations == 0 {
                EffectV::Finished {
                    summary: RunSummary { iterations: 0, completed_items: 0, commits: 0 },
                }
            } else {
                EffectV::Read
            }),
    {
        let max_iterations = match options.max_iterations_override {
            Some(m) => m,
            None => self.config.workflow.max_iterations,
        };
        let prd_path = prd_path_of(self.config_path.as_str(), self.config.prd.file.as_str());
        let summary = RunSummary { iterations: 0, completed_items: 0, commits: 0 };
        let (mode, eff) = if max_iterations == 0 {
            (Mode::Finished, LoopEffect::Finished { summary })
        } else {
            (Mode::Loading, LoopEffect::ReadChecklist)
        };
        let run = LoopRun {
            config: self.config,
            prd_path,
            dry_run: options.dry_run,
            max_iterations,
            step: 1,
            summary,
            loop_context: String::new(),
            mode,
        };
        (run, eff)
    }
}

impl LoopRun {
    fn advance_parts(&self, summary: RunSummary, loop_context: String) -> (r: (
        usize,
        RunSummary,
        String,
        Mode,
        LoopEffect,
    ))
        ensures
            ({
                let (s2, eff) = spec_advance(self.max_iterations, self.step, summary, loop_context@);
                r.0 == s2.step && r.1 == s2.summary && r.2@ == s2.loop_context && r.3@ == s2.mode
                    && r.4@ == eff
            }),
    {
        if self.step >= self.max_iterations {
            (self.step, summary, loop_context, Mode::Finished, LoopEffect::Finished { summary })
        } else {
            (self.step + 1, summary, loop_context, Mode::Loading, LoopEffect::ReadChecklist)
        }
    }

    fn end_parts(&self, summary: RunSummary, target: &str, commit_display: &str) -> (r: (
        usize,
        RunSummary,
        String,
        Mode,
        LoopEffect,
    ))
        ensures
            ({
                let (s2, eff) = spec_end_iteration(
                    self.max_iterations,
                    self.step,
                    summary,
                    target@,
                    commit_display@,
                );
                r.0 == s2.step && r.1 == s2.summary && r.2@ == s2.loop_context && r.3@ == s2.mode
                    && r.4@ == eff
            }),
    {
        let ctx = completed_context(target, commit_display);
        let s2 = RunSummary {
            iterations: self.step,
            completed_items: summary.completed_items,
            commits: summary.commits,
        };
        self.advance_parts(s2, ctx)
    }

    fn fail_parts(&self, summary: RunSummary, target: &str, output: &str) -> (r: (
        usize,
        RunSummary,
        String,
        Mode,
        LoopEffect,
    ))
        ensures
            ({
                let (s2, eff) = spec_fail_iteration(
                    self.max_iterations,
                    self.step,
                    summary,
                    target@,
                    output@,
                );
                r.0 == s2.step && r.1 == s2.summary && r.2@ == s2.loop_context && r.3@ == s2.mode
                    && r.4@ == eff
            }),
    {
        let ctx = failed_context(target, output);
        let s2 = RunSummary {
            iterations: self.step,
            completed_items: summary.completed_items,
            commits: summary.commits,
        };
        self.advance_parts(s2, ctx)
    }

    fn to_mark_parts(
        &self,
        summary: RunSummary,
        loop_context: String,
        target: String,
        commit_display: String,
    ) -> (r: (usize, RunSummary, String, Mode, LoopEffect))
        ensures
            ({
                let (s2, eff) = spec_to_mark(
                    self.config,
                    self.max_iterations,
                    self.step,
                    summary,
                    loop_context@,
                    target@,
                    commit_display@,
                );
                r.0 == s2.step && r.1 == s2.summary && r.2@ == s2.loop_context && r.3@ == s2.mode
                    && r.4@ == eff
            }),
    {
        if self.config.prd.auto_mark_completed {
            (
                self.step,
                summary,
                loop_context,
                Mode::AwaitMarkText { target, commit_display },
                LoopEffect::ReadChecklist,
            )
        } else {
            self.end_parts(summary, target.as_str(), commit_display.as_str())
        }
    }

    fn tests_passed_parts(
        &self,
        summary: RunSummary,
        loop_context: String,
        target: String,
        commit_message: Option<String>,
    ) -> (r: (usize, RunSummary, String, Mode, LoopEffect))
        ensures
            ({
                let (s2, eff) = spec_tests_passed(
                    self.config,
                    self.max_iterations,
                    self.step,
                    summary,
                    loop_context@,
                    target@,
                    commit_message.deep_view(),
                );
                r.0 == s2.step && r.1 == s2.summary && r.2@ == s2.loop_context && r.3@ == s2.mode
                    && r.4@ == eff
            }),
    {
        if self.config.workflow.auto_commit {
            (
                self.step,
                summary,
                loop_context,
                Mode::AwaitStatus { target, commit_message },
                LoopEffect::RunShell { command: String::from_str("git status --porcelain") },
            )
        } else {
            self.to_mark_parts(summary, loop_context, target, String::from_str("none"))
        }
    }

    fn start_tests_parts(
        &self,
        summary: RunSummary,
        loop_context: String,
        target: String,
        task: String,
        commit_message: Option<String>,
    ) -> (r: (usize, RunSummary, String, Mode, LoopEffect))
        ensures
            ({
                let (s2, eff) = spec_start_tests(
                    self.config,
                    self.max_iterations,
                    self.step,
                    summary,
                    loop_context@,
                    target@,
                    task@,
                    commit_message.deep_view(),
                );
                r.0 == s2.step && r.1 == s2.summary && r.2@ == s2.loop_context && r.3@ == s2.mode
                    && r.4@ == eff
            }),
    {
        let cmds = &self.config.workflow.execution_tests;
        if cmds.len() == 0 {
            proof {
                assert(cmds.deep_view().len() == 0);
            }
            self.tests_passed_parts(summary, loop_context, target, commit_message)
        } else {
            proof {
                assert(cmds.deep_view().len() > 0);
                assert(cmds.deep_view()[0] == cmds@[0]@);
            }
            (
                self.step,
                summary,
                loop_context,
                Mode::AwaitTest {
                    target,
                    task,
                    commit_message,
                    attempt: 0,
                    cmd_idx: 0,
                    acc: String::new(),
                },
                LoopEffect::RunShell { command: cmds[0].clone() },
            )
        }
    }
}

impl LoopRun {
    fn transition(&self, event: LoopEvent) -> (r: (usize, RunSummary, String, Mode, LoopEffect))
        requires
            wants(self.rv().mode, event@),
            self.wf(),
        ensures
            ({
                let (s2, eff) = spec_step(
                    self.config,
                    self.prd_path@,
                    self.dry_run,
                    self.max_iterations,
                    self.rv(),
                    event@,
                );
                r.0 == s2.step && r.1 == s2.summary && r.2@ == s2.loop_context && r.3@ == s2.mode
                    && r.4@ == eff
            }),
    {
        match &self.mode {
            Mode::Loading => match event {
                LoopEvent::ChecklistText { content } => {
                    let prd = PrdDocument::parse(content.as_str());
                    let unchecked = prd.unchecked_items();
                    proof {
                        assert(unchecked.deep_view().len() == unchecked@.len());
                    }
                    if unchecked.len() == 0 {
                        (
                            self.step,
                            self.summary,
                            self.loop_context.clone(),
                            Mode::Finished,
                            LoopEffect::Finished { summary: self.summary },
                        )
                    } else {
                        proof {
                            assert(unchecked.deep_view()[0] == unchecked@[0]@);
                        }
                        if self.dry_run {
                            let target = unchecked[0].text.clone();
                            self.end_parts(self.summary, target.as_str(), "none")
                        } else {
                            let prompt = build_loop_prompt(
                                &self.config,
                                self.prd_path.as_str(),
                                &prd,
                                self.loop_context.as_str(),
                                &self.config.workflow.execution_tests,
                            );
                            let first_unchecked = unchecked[0].text.clone();
                            (
                                self.step,
                                self.summary,
                                self.loop_context.clone(),
                                Mode::AwaitPlanner { first_unchecked },
                                LoopEffect::InvokeAgent { worker: false, prompt },
                            )
                        }
                    }
                },
                _ => unreached(),
            },
            Mode::AwaitPlanner { first_unchecked } => match event {
                LoopEvent::AgentOutput { stdout } => {
                    let d = parse_loop_decision(stdout.as_str());
                    if d.action == LoopAction::Done {
                        let summary = RunSummary {
                            iterations: self.step,
                            completed_items: self.summary.completed_items,
                            commits: self.summary.commits,
                        };
                        (
                            self.step,
                            summary,
                            self.loop_context.clone(),
                            Mode::Finished,
                            LoopEffect::Finished { summary },
                        )
                    } else {
                        let target = match d.target_item {
                            Some(t) => t,
                            None => first_unchecked.clone(),
                        };
                        let task = match d.worker_prompt {
                            Some(w) => w,
                            None => default_task(target.as_str()),
                        };
                        let prompt = build_worker_prompt(
                            &self.config,
                            target.as_str(),
                            task.as_str(),
                            None,
                            &self.config.workflow.execution_tests,
                        );
                        (
                            self.step,
                            self.summary,
                            self.loop_context.clone(),
                            Mode::AwaitWorker { target, task, commit_message: d.commit_message },
                            LoopEffect::InvokeAgent { worker: true, prompt },
                        )
                    }
                },
                _ => unreached(),
            },
            Mode::AwaitWorker { target, task, commit_message } => match event {
                LoopEvent::AgentOutput { .. } => self.start_tests_parts(
                    self.summary,
                    self.loop_context.clone(),
                    target.clone(),
                    task.clone(),
                    clone_opt(commit_message),
                ),
                _ => unreached(),
            },
            Mode::AwaitTest { target, task, commit_message, attempt, cmd_idx, acc } => match event {
                LoopEvent::ShellResult { success, output } => {
                    let cmds = &self.config.workflow.execution_tests;
                    proof {
                        assert(cmds.deep_view().len() == cmds@.len());
                        assert(*cmd_idx < cmds@.len());
                        assert(cmds.deep_view()[*cmd_idx as int] == cmds@[*cmd_idx as int]@);
                    }
                    let mut acc2 = acc.clone();
                    acc2.append("$ ");
                    acc2.append(cmds[*cmd_idx].as_str());
                    acc2.append("\n");
                    acc2.append(output.as_str());
                    acc2.append("\n");
                    proof {
                        assert(acc2@ =~= acc@ + spec_test_chunk(
                            cmds.deep_view()[*cmd_idx as int],
                            output@,
                        ));
                    }
                    let nc = cmds.len();
                    proof {
                        assert(*cmd_idx < nc);
                    }
                    if success {
                        if *cmd_idx + 1 < nc {
                            proof {
                                assert(cmds.deep_view()[*cmd_idx + 1] == cmds@[*cmd_idx + 1]@);
                            }
                            (
                                self.step,
                                self.summary,
                                self.loop_context.clone(),
                                Mode::AwaitTest {
                                    target: target.clone(),
                                    task: task.clone(),
                                    commit_message: clone_opt(commit_message),
                                    attempt: *attempt,
                                    cmd_idx: *cmd_idx + 1,
                                    acc: acc2,
                                },
                                LoopEffect::RunShell { command: cmds[*cmd_idx + 1].clone() },
                            )
                        } else {
                            self.tests_passed_parts(
                                self.summary,
                                self.loop_context.clone(),
                                target.clone(),
                                clone_opt(commit_message),
                            )
                        }
                    } else {
                        if *attempt < self.config.workflow.max_fix_attempts {
                            let prompt = build_worker_prompt(
                                &self.config,
                                target.as_str(),
                                task.as_str(),
                                Some(acc2.as_str()),
                                cmds,
                            );
                            (
                                self.step,
                                self.summary,
                                self.loop_context.clone(),
                                Mode::AwaitFixer {
                                    target: target.clone(),
                                    task: task.clone(),
                                    commit_message: clone_opt(commit_message),
                                    attempt: *attempt + 1,
                                },
                                LoopEffect::InvokeAgent { worker: true, prompt },
                            )
                        } else {
                            self.fail_parts(self.summary, target.as_str(), acc2.as_str())
                        }
                    }
                },
                _ => unreached(),
            },
            Mode::AwaitFixer { target, task, commit_message, attempt } => match event {
                LoopEvent::AgentOutput { .. } => {
                    let cmds = &self.config.workflow.execution_tests;
                    proof {
                        assert(cmds.deep_view()[0] == cmds@[0]@);
                    }
                    (
                        self.step,
                        self.summary,
                        self.loop_context.clone(),
                        Mode::AwaitTest {
                            target: target.clone(),
                            task: task.clone(),
                            commit_message: clone_opt(commit_message),
                            attempt: *attempt,
                            cmd_idx: 0,
                            acc: String::new(),
                        },
                        LoopEffect::RunShell { command: cmds[0].clone() },
                    )
                },
                _ => unreached(),
            },
            Mode::AwaitStatus { target, commit_message } => match event {
                LoopEvent::ShellResult { output, .. } => {
                    let t = trim_str(output.as_str());
                    if t.unicode_len() > 0 {
                        let msg = match commit_message {
                            Some(m) => m.clone(),
                            None => default_commit_message(target.as_str()),
                        };
                        (
                            self.step,
                            self.summary,
                            self.loop_context.clone(),
                            Mode::AwaitAdd { target: target.clone(), message: msg },
                            LoopEffect::RunShell { command: String::from_str("git add -A") },
                        )
                    } else {
                        self.to_mark_parts(
                            self.summary,
                            self.loop_context.clone(),
                            target.clone(),
                            String::from_str("none"),
                        )
                    }
                },
                _ => unreached(),
            },
            Mode::AwaitAdd { target, message } => match event {
                LoopEvent::ShellResult { .. } => (
                    self.step,
                    self.summary,
                    self.loop_context.clone(),
                    Mode::AwaitCommit { target: target.clone(), message: message.clone() },
                    LoopEffect::RunShell { command: commit_command(message.as_str()) },
                ),
                _ => unreached(),
            },
            Mode::AwaitCommit { target, .. } => match event {
                LoopEvent::ShellResult { .. } => (
                    self.step,
                    self.summary,
                    self.loop_context.clone(),
                    Mode::AwaitRev { target: target.clone() },
                    LoopEffect::RunShell {
                        command: String::from_str("git rev-parse --short HEAD"),
                    },
                ),
                _ => unreached(),
            },
            Mode::AwaitRev { target } => match event {
                LoopEvent::ShellResult { output, .. } => {
                    let hash = String::from_str(trim_str(output.as_str()));
                    let summary = RunSummary {
                        iterations: self.summary.iterations,
                        completed_items: self.summary.completed_items,
                        commits: self.summary.commits + 1,
                    };
                    self.to_mark_parts(summary, self.loop_context.clone(), target.clone(), hash)
                },
                _ => unreached(),
            },
            Mode::AwaitMarkText { target, commit_display } => match event {
                LoopEvent::ChecklistText { content } => {
                    match mark_item_done(content.as_str(), target.as_str()) {
                        Some(new_content) => (
                            self.step,
                            self.summary,
                            self.loop_context.clone(),
                            Mode::AwaitMarkWrite {
                                target: target.clone(),
                                commit_display: commit_display.clone(),
                            },
                            LoopEffect::WriteChecklist { content: new_content },
                        ),
                        None => self.end_parts(
                            self.summary,
                            target.as_str(),
                            commit_display.as_str(),
                        ),
                    }
                },
                _ => unreached(),
            },
            Mode::AwaitMarkWrite { target, commit_display } => match event {
                LoopEvent::ChecklistWritten => {
                    let summary = RunSummary {
                        iterations: self.summary.iterations,
                        completed_items: self.summary.completed_items + 1,
                        commits: self.summary.commits,
                    };
                    self.end_parts(summary, target.as_str(), commit_display.as_str())
                },
                _ => unreached(),
            },
            Mode::Finished => (
                self.step,
                self.summary,
                self.loop_context.clone(),
                Mode::Finished,
                LoopEffect::Finished { summary: self.summary },
            ),
        }
    }

    /// Feed the machine the outcome of the last effect; it updates its state
    /// and hands out the next effect. The whole transition is
    /// [`spec_step`](spec_step), and every step keeps the run's invariants.
    pub fn step(&mut self, event: LoopEvent) -> (r: LoopEffect)
        requires
            wants(old(self).rv().mode, event@),
            old(self).wf(),
        ensures
            final(self).config == old(self).config,
            final(self).prd_path == old(self).prd_path,
            final(self).dry_run == old(self).dry_run,
            final(self).max_iterations == old(self).max_iterations,
            ({
                let (s2, eff) = spec_step(
                    old(self).config,
                    old(self).prd_path@,
                    old(self).dry_run,
                    old(self).max_iterations,
                    old(self).rv(),
                    event@,
                );
                final(self).rv() == s2 && r@ == eff
            }),
            final(self).wf(),
    {
        proof {
            lemma_step_preserves_inv(
                self.config,
                self.prd_path@,
                self.dry_run,
                self.max_iterations,
                self.rv(),
                event@,
            );
        }
        let parts = self.transition(event);
        self.step = parts.0;
        self.summary = parts.1;
        self.loop_context = parts.2;
        self.mode = parts.3;
        parts.4
    }
}

/// One step keeps the structural invariants.
pub proof fn lemma_step_preserves_inv(
    cfg: AppConfig,
    prd_path: Seq<char>,
    dry_run: bool,
    max_iterations: usize,
    s: RunV,
    ev: EventV,
)
    requires
        inv(max_iterations, dry_run, s),
        wf_mode(cfg, s),
        wants(s.mode, ev),
    ensures
        inv(max_iterations, dry_run, spec_step(cfg, prd_path, dry_run, max_iterations, s, ev).0),
        wf_mode(cfg, spec_step(cfg, prd_path, dry_run, max_iterations, s, ev).0),
{
}

/// Law: a dry run is side-effect free. Its only effects are checklist reads
/// and the finished summary — never an agent invocation, a shell command or
/// a checklist write — and any summary it finishes with holds zero commits
/// and zero completed items.
pub proof fn lemma_dry_run_side_effect_free(
    cfg: AppConfig,
    prd_path: Seq<char>,
    max_iterations: usize,
    s: RunV,
    ev: EventV,
)
    requires
        inv(max_iterations, true, s),
        wants(s.mode, ev),
    ensures
        ({
            let (s2, eff) = spec_step(cfg, prd_path, true, max_iterations, s, ev);
            &&& (eff is Read || eff is Finished)
            &&& (eff matches EffectV::Finished { summary } ==> summary.commits == 0
                && summary.completed_items == 0)
            &&& inv(max_iterations, true, s2)
        }),
{
    lemma_step_preserves_inv(cfg, prd_path, true, max_iterations, s, ev);
}

/// Law: a checklist without unchecked items stops the run at once, with the
/// summary exactly as it stood — started fresh, the run reports zero
/// iterations, whatever the iteration bound.
pub proof fn lemma_checklist_exhaustion(
    cfg: AppConfig,
    prd_path: Seq<char>,
    dry_run: bool,
    max_iterations: usize,
    s: RunV,
    content: Seq<char>,
)
    requires
        s.mode is Loading,
        !has_unchecked(spec_parse(content)),
    ensures
        ({
            let (s2, eff) = spec_step(
                cfg,
                prd_path,
                dry_run,
                max_iterations,
                s,
                EventV::Text { content },
            );
            &&& s2.mode is Finished
            &&& s2.summary == s.summary
            &&& eff == EffectV::Finished { summary: s.summary }
            &&& (s == spec_start_state(max_iterations) ==> s2.summary.iterations == 0)
        }),
{
    lemma_unchecked_of_len(spec_parse(content));
}

/// Law: with auto-commit and auto-marking off and a single test command, an
/// iteration whose planner delegates and whose test passes takes exactly
/// four events — the checklist text, the planner's output, the worker's
/// output, one passing test result — records the step as the iteration
/// count, leaves the commit and completion counters alone, and moves on to
/// the next iteration, or finishes when the budget is spent.
pub proof fn lemma_delegate_iteration(
    cfg: AppConfig,
    prd_path: Seq<char>,
    max_iterations: usize,
    s: RunV,
    content: Seq<char>,
    planner_out: Seq<char>,
    worker_out: Seq<char>,
    test_out: Seq<char>,
) -> (t: RunV)
    requires
        inv(max_iterations, false, s),
        wf_mode(cfg, s),
        s.mode is Loading,
        !cfg.prd.auto_mark_completed,
        !cfg.workflow.auto_commit,
        cfg.workflow.execution_tests.deep_view().len() == 1,
        has_unchecked(spec_parse(content)),
        spec_parse_decision(planner_out).action == LoopAction::Delegate,
    ensures
        ({
            let (s1, e1) = spec_step(
                cfg,
                prd_path,
                false,
                max_iterations,
                s,
                EventV::Text { content },
            );
            let (s2, e2) = spec_step(
                cfg,
                prd_path,
                false,
                max_iterations,
                s1,
                EventV::Agent { stdout: planner_out },
            );
            let (s3, e3) = spec_step(
                cfg,
                prd_path,
                false,
                max_iterations,
                s2,
                EventV::Agent { stdout: worker_out },
            );
            let (s4, e4) = spec_step(
                cfg,
                prd_path,
                false,
                max_iterations,
                s3,
                EventV::Shell { success: true, output: test_out },
            );
            &&& t == s4
            &&& s1.mode is AwaitPlanner && e1 is Agent
            &&& s2.mode is AwaitWorker && e2 is Agent
            &&& s3.mode is AwaitTest && e3 is Shell
            &&& t.summary.iterations == s.step
            &&& t.summary.commits == s.summary.commits
            &&& t.summary.completed_items == s.summary.completed_items
            &&& (s.step < max_iterations ==> t.step == s.step + 1 && t.mode is Loading
                && e4 is Read)
            &&& (s.step >= max_iterations ==> t.mode is Finished && (e4 matches
            EffectV::Finished { summary } && summary.iterations == s.step))
            &&& inv(max_iterations, false, t)
            &&& wf_mode(cfg, t)
        }),
{
    lemma_unchecked_of_len(spec_parse(content));
    let ev1 = EventV::Text { content };
    let (s1, e1) = spec_step(cfg, prd_path, false, max_iterations, s, ev1);
    lemma_step_preserves_inv(cfg, prd_path, false, max_iterations, s, ev1);
    let ev2 = EventV::Agent { stdout: planner_out };
    let (s2, e2) = spec_step(cfg, prd_path, false, max_iterations, s1, ev2);
    lemma_step_preserves_inv(cfg, prd_path, false, max_iterations, s1, ev2);
    let ev3 = EventV::Agent { stdout: worker_out };
    let (s3, e3) = spec_step(cfg, prd_path, false, max_iterations, s2, ev3);
    lemma_step_preserves_inv(cfg, prd_path, false, max_iterations, s2, ev3);
    let ev4 = EventV::Shell { success: true, output: test_out };
    let (s4, e4) = spec_step(cfg, prd_path, false, max_iterations, s3, ev4);
    lemma_step_preserves_inv(cfg, prd_path, false, max_iterations, s3, ev4);
    s4
}

/// Law: with an iteration bound of three, a planner that always delegates
/// and tests that always pass (auto-commit and auto-marking off, one test
/// command), the run takes exactly three iterations and finishes with
/// `iterations == 3` and untouched commit and completion counters.
pub proof fn lemma_iteration_bound(
    cfg: AppConfig,
    prd_path: Seq<char>,
    text1: Seq<char>,
    plan1: Seq<char>,
    work1: Seq<char>,
    pass1: Seq<char>,
    text2: Seq<char>,
    plan2: Seq<char>,
    work2: Seq<char>,
    pass2: Seq<char>,
    text3: Seq<char>,
    plan3: Seq<char>,
    work3: Seq<char>,
    pass3: Seq<char>,
) -> (t: RunV)
    requires
        !cfg.prd.auto_mark_completed,
        !cfg.workflow.auto_commit,
        cfg.workflow.execution_tests.deep_view().len() == 1,
        has_unchecked(spec_parse(text1)),
        has_unchecked(spec_parse(text2)),
        has_unchecked(spec_parse(text3)),
        spec_parse_decision(plan1).action == LoopAction::Delegate,
        spec_parse_decision(plan2).action == LoopAction::Delegate,
        spec_parse_decision(plan3).action == LoopAction::Delegate,
    ensures
        t.mode is Finished,
        t.summary.iterations == 3,
        t.summary.commits == 0,
        t.summary.completed_items == 0,
        ({
            let s0 = spec_start_state(3);
            let f = |st: RunV, ev: EventV| spec_step(cfg, prd_path, false, 3, st, ev).0;
            t == f(
                f(
                    f(
                        f(
                            f(
                                f(
                                    f(
                                        f(
                                            f(
                                                f(
                                                    f(
                                                        f(s0, EventV::Text { content: text1 }),
                                                        EventV::Agent { stdout: plan1 },
                                                    ),
                                                    EventV::Agent { stdout: work1 },
                                                ),
                                                EventV::Shell { success: true, output: pass1 },
                                            ),
                                            EventV::Text { content: text2 },
                                        ),
                                        EventV::Agent { stdout: plan2 },
                                    ),
                                    EventV::Agent { stdout: work2 },
                                ),
                                EventV::Shell { success: true, output: pass2 },
                            ),
                            EventV::Text { content: text3 },
                        ),
                        EventV::Agent { stdout: plan3 },
                    ),
                    EventV::Agent { stdout: work3 },
                ),
                EventV::Shell { success: true, output: pass3 },
            )
        }),
{
    let s0 = spec_start_state(3);
    assert(inv(3, false, s0));
    let t1 = lemma_delegate_iteration(cfg, prd_path, 3, s0, text1, plan1, work1, pass1);
    assert(t1.step == 2 && t1.mode is Loading);
    let t2 = lemma_delegate_iteration(cfg, prd_path, 3, t1, text2, plan2, work2, pass2);
    assert(t2.step == 3 && t2.mode is Loading);
    let t3 = lemma_delegate_iteration(cfg, prd_path, 3, t2, text3, plan3, work3, pass3);
    assert(t3.mode is Finished && t3.summary.iterations == 3);
    t3
}

/// Law: commits and completed items track successful iterations. With
/// auto-commit and auto-marking on and one test command, an iteration whose
/// planner delegates, whose test passes, whose working tree has changes and
/// whose target matches an unchecked item performs exactly one commit
/// sequence and one checklist rewrite: both counters go up by one, whatever
/// the git commands print and whether or not they succeed.
pub proof fn lemma_commit_mark_iteration(
    cfg: AppConfig,
    prd_path: Seq<char>,
    max_iterations: usize,
    s: RunV,
    content: Seq<char>,
    planner_out: Seq<char>,
    worker_out: Seq<char>,
    test_out: Seq<char>,
    status_ok: bool,
    status_out: Seq<char>,
    add_ok: bool,
    add_out: Seq<char>,
    commit_ok: bool,
    commit_out: Seq<char>,
    rev_ok: bool,
    rev_out: Seq<char>,
    mark_text: Seq<char>,
) -> (t: RunV)
    requires
        inv(max_iterations, false, s),
        wf_mode(cfg, s),
        s.mode is Loading,
        cfg.prd.auto_mark_completed,
        cfg.workflow.auto_commit,
        cfg.workflow.execution_tests.deep_view().len() == 1,
        has_unchecked(spec_parse(content)),
        spec_parse_decision(planner_out).action == LoopAction::Delegate,
        trimmed(status_out).len() > 0,
        ({
            let d = spec_parse_decision(planner_out);
            let target = match d.target_item {
                Some(tg) => tg,
                None => unchecked_of(spec_parse(content))[0].text,
            };
            spec_mark(mark_text, target) is Some
        }),
    ensures
        t.summary.commits == s.summary.commits + 1,
        t.summary.completed_items == s.summary.completed_items + 1,
        t.summary.iterations == s.step,
        (s.step < max_iterations ==> t.step == s.step + 1 && t.mode is Loading),
        (s.step >= max_iterations ==> t.mode is Finished),
        inv(max_iterations, false, t),
        wf_mode(cfg, t),
        ({
            let f = |st: RunV, ev: EventV| spec_step(cfg, prd_path, false, max_iterations, st, ev).0;
            t == f(
                f(
                    f(
                        f(
                            f(
                                f(
                                    f(
                                        f(
                                            f(
                                                f(s, EventV::Text { content }),
                                                EventV::Agent { stdout: planner_out },
                                            ),
                                            EventV::Agent { stdout: worker_out },
                                        ),
                                        EventV::Shell { success: true, output: test_out },
                                    ),
                                    EventV::Shell { success: status_ok, output: status_out },
                                ),
                                EventV::Shell { success: add_ok, output: add_out },
                            ),
                            EventV::Shell { success: commit_ok, output: commit_out },
                        ),
                        EventV::Shell { success: rev_ok, output: rev_out },
                    ),
                    EventV::Text { content: mark_text },
                ),
                EventV::Written,
            )
        }),
{
    lemma_unchecked_of_len(spec_parse(content));
    let ev1 = EventV::Text { content };
    let (s1, _e1) = spec_step(cfg, prd_path, false, max_iterations, s, ev1);
    lemma_step_preserves_inv(cfg, prd_path, false, max_iterations, s, ev1);
    assert(s1.mode is AwaitPlanner);
    let ev2 = EventV::Agent { stdout: planner_out };
    let (s2, _e2) = spec_step(cfg, prd_path, false, max_iterations, s1, ev2);
    lemma_step_preserves_inv(cfg, prd_path, false, max_iterations, s1, ev2);
    assert(s2.mode is AwaitWorker);
    let ev3 = EventV::Agent { stdout: worker_out };
    let (s3, _e3) = spec_step(cfg, prd_path, false, max_iterations, s2, ev3);
    lemma_step_preserves_inv(cfg, prd_path, false, max_iterations, s2, ev3);
    assert(s3.mode is AwaitTest);
    let ev4 = EventV::Shell { success: true, output: test_out };
    let (s4, _e4) = spec_step(cfg, prd_path, false, max_iterations, s3, ev4);
    lemma_step_preserves_inv(cfg, prd_path, false, max_iterations, s3, ev4);
    assert(s4.mode is AwaitStatus);
    let ev5 = EventV::Shell { success: status_ok, output: status_out };
    let (s5, _e5) = spec_step(cfg, prd_path, false, max_iterations, s4, ev5);
    lemma_step_preserves_inv(cfg, prd_path, false, max_iterations, s4, ev5);
    assert(s5.mode is AwaitAdd);
    let ev6 = EventV::Shell { success: add_ok, output: add_out };
    let (s6, _e6) = spec_step(cfg, prd_path, false, max_iterations, s5, ev6);
    lemma_step_preserves_inv(cfg, prd_path, false, max_iterations, s5, ev6);
    assert(s6.mode is AwaitCommit);
    let ev7 = EventV::Shell { success: commit_ok, output: commit_out };
    let (s7, _e7) = spec_step(cfg, prd_path, false, max_iterations, s6, ev7);
    lemma_step_preserves_inv(cfg, prd_path, false, max_iterations, s6, ev7);
    assert(s7.mode is AwaitRev);
    let ev8 = EventV::Shell { success: rev_ok, output: rev_out };
    let (s8, _e8) = spec_step(cfg, prd_path, false, max_iterations, s7, ev8);
    lemma_step_preserves_inv(cfg, prd_path, false, max_iterations, s7, ev8);
    assert(s8.mode is AwaitMarkText);
    assert(s8.summary.commits == s.summary.commits + 1);
    let ev9 = EventV::Text { content: mark_text };
    let (s9, _e9) = spec_step(cfg, prd_path, false, max_iterations, s8, ev9);
    lemma_step_preserves_inv(cfg, prd_path, false, max_iterations, s8, ev9);
    assert(s9.mode is AwaitMarkWrite);
    let ev10 = EventV::Written;
    let (s10, _e10) = spec_step(cfg, prd_path, false, max_iterations, s9, ev10);
    lemma_step_preserves_inv(cfg, prd_path, false, max_iterations, s9, ev10);
    assert(s10.summary.completed_items == s.summary.completed_items + 1);
    s10
}

/// Law: with a fix budget of two and a single test command, when every test
/// run fails the machine runs the test suite exactly three times — once
/// after the initial delegation and once after each of the two fix attempts
/// — and then abandons the iteration: no commit command, no checklist
/// write, the counters stand, only the failure context and the iteration
/// count are recorded.
pub proof fn lemma_retry_exhaustion(
    cfg: AppConfig,
    prd_path: Seq<char>,
    max_iterations: usize,
    s: RunV,
    worker_out: Seq<char>,
    o1: Seq<char>,
    f1: Seq<char>,
    o2: Seq<char>,
    f2: Seq<char>,
    o3: Seq<char>,
) -> (t: RunV)
    requires
        inv(max_iterations, false, s),
        wf_mode(cfg, s),
        s.mode matches ModeV::AwaitWorker { .. },
        cfg.workflow.max_fix_attempts == 2,
        cfg.workflow.execution_tests.deep_view().len() == 1,
    ensures
        ({
            let (s1, e1) = spec_step(
                cfg,
                prd_path,
                false,
                max_iterations,
                s,
                EventV::Agent { stdout: worker_out },
            );
            let (s2, e2) = spec_step(
                cfg,
                prd_path,
                false,
                max_iterations,
                s1,
                EventV::Shell { success: false, output: o1 },
            );
            let (s3, e3) = spec_step(
                cfg,
                prd_path,
                false,
                max_iterations,
                s2,
                EventV::Agent { stdout: f1 },
            );
            let (s4, e4) = spec_step(
                cfg,
                prd_path,
                false,
                max_iterations,
                s3,
                EventV::Shell { success: false, output: o2 },
            );
            let (s5, e5) = spec_step(
                cfg,
                prd_path,
                false,
                max_iterations,
                s4,
                EventV::Agent { stdout: f2 },
            );
            let (s6, e6) = spec_step(
                cfg,
                prd_path,
                false,
                max_iterations,
                s5,
                EventV::Shell { success: false, output: o3 },
            );
            &&& t == s6
            &&& e1 is Shell && e3 is Shell && e5 is Shell
            &&& e2 is Agent && e4 is Agent
            &&& (e6 is Read || e6 is Finished)
            &&& t.summary.commits == s.summary.commits
            &&& t.summary.completed_items == s.summary.completed_items
            &&& t.summary.iterations == s.step
            &&& inv(max_iterations, false, t)
        }),
{
    let ev1 = EventV::Agent { stdout: worker_out };
    let (s1, e1) = spec_step(cfg, prd_path, false, max_iterations, s, ev1);
    lemma_step_preserves_inv(cfg, prd_path, false, max_iterations, s, ev1);
    assert(s1.mode matches ModeV::AwaitTest { attempt: 0, cmd_idx: 0, .. });
    let ev2 = EventV::Shell { success: false, output: o1 };
    let (s2, e2) = spec_step(cfg, prd_path, false, max_iterations, s1, ev2);
    lemma_step_preserves_inv(cfg, prd_path, false, max_iterations, s1, ev2);
    assert(s2.mode matches ModeV::AwaitFixer { attempt: 1, .. });
    let ev3 = EventV::Agent { stdout: f1 };
    let (s3, e3) = spec_step(cfg, prd_path, false, max_iterations, s2, ev3);
    lemma_step_preserves_inv(cfg, prd_path, false, max_iterations, s2, ev3);
    assert(s3.mode matches ModeV::AwaitTest { attempt: 1, cmd_idx: 0, .. });
    let ev4 = EventV::Shell { success: false, output: o2 };
    let (s4, e4) = spec_step(cfg, prd_path, false, max_iterations, s3, ev4);
    lemma_step_preserves_inv(cfg, prd_path, false, max_iterations, s3, ev4);
    assert(s4.mode matches ModeV::AwaitFixer { attempt: 2, .. });
    let ev5 = EventV::Agent { stdout: f2 };
    let (s5, e5) = spec_step(cfg, prd_path, false, max_iterations, s4, ev5);
    lemma_step_preserves_inv(cfg, prd_path, false, max_iterations, s4, ev5);
    assert(s5.mode matches ModeV::AwaitTest { attempt: 2, cmd_idx: 0, .. });
    let ev6 = EventV::Shell { success: false, output: o3 };
    let (s6, e6) = spec_step(cfg, prd_path, false, max_iterations, s5, ev6);
    lemma_step_preserves_inv(cfg, prd_path, false, max_iterations, s5, ev6);
    s6
}

} // verus!
