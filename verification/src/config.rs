//! The run configuration the loop consumes: checklist location, workflow
//! policy, and the two agent profiles. Validation guards the bounds and
//! commands the loop depends on; everything else is the caller's business.
use crate::text::trim_str;
use crate::text::trimmed;
use vstd::prelude::*;
use vstd::string::StrSliceExecFns;
use vstd::string::StringExecFns;

verus! {

/// Where the checklist lives and whether completed items are marked off
/// automatically.
pub struct PrdConfig {
    pub file: String,
    pub auto_mark_completed: bool,
}

/// Workflow policy: the iteration budget, the fix-retry budget, whether to
/// commit automatically, and the test commands run after each delegation.
pub struct WorkflowConfig {
    pub max_iterations: usize,
    pub max_fix_attempts: usize,
    pub auto_commit: bool,
    pub execution_tests: Vec<String>,
}

/// Which kind of agent binary a profile drives.
#[derive(Clone, Copy, PartialEq, Eq, Structural, Debug)]
pub enum AgentProvider {
    Codex,
    Opencode,
    Custom,
}

/// How to invoke one agent: its command, argument templates, model id, the
/// files and tests its prompt lists, and its system prompt.
pub struct AgentConfig {
    pub provider: AgentProvider,
    pub command: String,
    pub args: Vec<String>,
    pub model: String,
    pub visible_files: Vec<String>,
    pub visible_tests: Vec<String>,
    pub system_prompt: String,
}

/// The whole configuration of one run.
pub struct AppConfig {
    pub prd: PrdConfig,
    pub workflow: WorkflowConfig,
    pub loop_agent: AgentConfig,
    pub worker_agent: AgentConfig,
}

/// Why a configuration was rejected.
#[derive(Clone, Copy, PartialEq, Eq, Structural, Debug)]
pub enum ConfigError {
    ZeroMaxIterations,
    EmptyLoopCommand,
    EmptyWorkerCommand,
}

impl AppConfig {
    /// The conditions `validate` checks: a positive iteration budget and
    /// non-blank agent commands.
    pub open spec fn spec_valid(&self) -> bool {
        &&& self.workflow.max_iterations > 0
        &&& trimmed(self.loop_agent.command@).len() > 0
        &&& trimmed(self.worker_agent.command@).len() > 0
    }

    /// Reject a configuration whose iteration budget is zero or whose agent
    /// commands are blank; each error names the first check that failed.
    pub fn validate(&self) -> (r: Result<(), ConfigError>)
        ensures
            r is Ok <==> self.spec_valid(),
            r == Result::<(), ConfigError>::Err(ConfigError::ZeroMaxIterations)
                <==> self.workflow.max_iterations == 0,
            r == Result::<(), ConfigError>::Err(ConfigError::EmptyLoopCommand)
                <==> self.workflow.max_iterations > 0 && trimmed(self.loop_agent.command@).len()
                == 0,
            r == Result::<(), ConfigError>::Err(ConfigError::EmptyWorkerCommand)
                <==> self.workflow.max_iterations > 0 && trimmed(self.loop_agent.command@).len()
                > 0 && trimmed(self.worker_agent.command@).len() == 0,
    {
        if self.workflow.max_iterations == 0 {
            return Err(ConfigError::ZeroMaxIterations);
        }
        if trim_str(self.loop_agent.command.as_str()).unicode_len() == 0 {
            return Err(ConfigError::EmptyLoopCommand);
        }
        if trim_str(self.worker_agent.command.as_str()).unicode_len() == 0 {
            return Err(ConfigError::EmptyWorkerCommand);
        }
        Ok(())
    }
}

fn push_str(v: &mut Vec<String>, s: &str)
    ensures
        final(v).deep_view() == old(v).deep_view().push(s@),
{
    let owned = String::from_str(s);
    let ghost pre = v@;
    let ghost pre_deep = v.deep_view();
    v.push(owned);
    proof {
        assert forall|j: int| 0 <= j < pre.len() implies v.deep_view()[j] == pre_deep[j] by {
            assert(v.deep_view()[j] == v@[j]@);
            assert(v@[j] == pre[j]);
            assert(pre_deep[j] == pre[j]@);
        }
        assert(v.deep_view()[pre.len() as int] == s@);
        assert(v.deep_view() =~= pre_deep.push(s@));
    }
}

impl Default for AppConfig {
    /// The shipped starting configuration: a `PRD.md` checklist with
    /// auto-marking, twelve iterations, two fix attempts, auto-commit, one
    /// `cargo test` execution test, and two codex-driven agent profiles.
    fn default() -> (r: AppConfig)
        ensures
            r.prd.file@ == "PRD.md"@,
            r.prd.auto_mark_completed,
            r.workflow.max_iterations == 12,
            r.workflow.max_fix_attempts == 2,
            r.workflow.auto_commit,
            r.workflow.execution_tests.deep_view() == seq!["cargo test"@],
            r.loop_agent.provider == AgentProvider::Codex,
            r.loop_agent.command@ == "codex"@,
            r.loop_agent.args.deep_view() == seq![
                "exec"@,
                "--model"@,
                "{model}"@,
                "{prompt}"@,
            ],
            r.loop_agent.model@ == "gpt-5-mini"@,
            r.worker_agent.provider == AgentProvider::Codex,
            r.worker_agent.command@ == "codex"@,
            r.worker_agent.args.deep_view() == seq![
                "exec"@,
                "--model"@,
                "{model}"@,
                "{prompt}"@,
            ],
            r.worker_agent.model@ == "gpt-5"@,
    {
        let mut exec_tests: Vec<String> = Vec::new();
        push_str(&mut exec_tests, "cargo test");
        let mut loop_args: Vec<String> = Vec::new();
        push_str(&mut loop_args, "exec");
        push_str(&mut loop_args, "--model");
        push_str(&mut loop_args, "{model}");
        push_str(&mut loop_args, "{prompt}");
        let mut loop_files: Vec<String> = Vec::new();
        push_str(&mut loop_files, "PRD.md");
        push_str(&mut loop_files, "docs/");
        let mut loop_tests: Vec<String> = Vec::new();
        push_str(&mut loop_tests, "cargo test -p laun -- --nocapture");
        let mut worker_args: Vec<String> = Vec::new();
        push_str(&mut worker_args, "exec");
        push_str(&mut worker_args, "--model");
        push_str(&mut worker_args, "{model}");
        push_str(&mut worker_args, "{prompt}");
        let mut worker_files: Vec<String> = Vec::new();
        push_str(&mut worker_files, "src/");
        push_str(&mut worker_files, "Cargo.toml");
        let mut worker_tests: Vec<String> = Vec::new();
        push_str(&mut worker_tests, "cargo test");
        proof {
            assert(exec_tests.deep_view() =~= seq!["cargo test"@]);
            assert(loop_args.deep_view() =~= seq!["exec"@, "--model"@, "{model}"@, "{prompt}"@]);
            assert(worker_args.deep_view() =~= seq!["exec"@, "--model"@, "{model}"@, "{prompt}"@]);
        }
        AppConfig {
            prd: PrdConfig { file: String::from_str("PRD.md"), auto_mark_completed: true },
            workflow: WorkflowConfig {
                max_iterations: 12,
                max_fix_attempts: 2,
                auto_commit: true,
                execution_tests: exec_tests,
            },
            loop_agent: AgentConfig {
                provider: AgentProvider::Codex,
                command: String::from_str("codex"),
                args: loop_args,
                model: String::from_str("gpt-5-mini"),
                visible_files: loop_files,
                visible_tests: loop_tests,
                system_prompt: String::from_str(
                    "You are a fast loop manager. Keep tasks moving with small scoped worker instructions.",
                ),
            },
            worker_agent: AgentConfig {
                provider: AgentProvider::Codex,
                command: String::from_str("codex"),
                args: worker_args,
                model: String::from_str("gpt-5"),
                visible_files: worker_files,
                visible_tests: worker_tests,
                system_prompt: String::from_str(
                    "You are the implementation agent. Apply code changes, run commands, and report concise outcomes.",
                ),
            },
        }
    }
}

} // verus!
