//! The computational half of agent invocation: rendering the configured
//! argument templates by substituting the `{model}`, `{prompt}` and
//! `{prompt_file}` tokens. Spawning the process and capturing its output is
//! the caller's side of the boundary; it hands the captured stdout back as a
//! plain value.
use crate::config::AgentConfig;
use crate::text::matches_at;
use vstd::prelude::*;
use vstd::string::StrSliceExecFns;
use vstd::string::StringExecFns;

verus! {

/// Result of running one external agent process: its captured, trimmed
/// standard output.
pub struct AgentRunResult {
    pub stdout: String,
}

/// `s` with every occurrence of `pat` replaced by `rep`, scanning left to
/// right without overlap, as `str::replace` does for a non-empty pattern.
pub open spec fn spec_replace(s: Seq<char>, pat: Seq<char>, rep: Seq<char>) -> Seq<char>
    decreases s.len(),
    when pat.len() > 0
{
    if s.len() < pat.len() {
        s
    } else if s.subrange(0, pat.len() as int) == pat {
        rep + spec_replace(s.skip(pat.len() as int), pat, rep)
    } else {
        seq![s[0]] + spec_replace(s.drop_first(), pat, rep)
    }
}

/// Replace every occurrence of `pat` in `s` by `rep`, left to right, without
/// overlap.
pub fn replace(s: &str, pat: &str, rep: &str) -> (r: String)
    requires
        pat@.len() > 0,
    ensures
        r@ == spec_replace(s@, pat@, rep@),
{
    let n = s.unicode_len();
    let m = pat.unicode_len();
    let mut out = String::new();
    let mut i: usize = 0;
    proof {
        assert(s@.skip(0) =~= s@);
        assert(out@ + spec_replace(s@, pat@, rep@) =~= spec_replace(s@, pat@, rep@));
    }
    while i < n
        invariant
            0 <= i <= n,
            n == s@.len(),
            m == pat@.len(),
            m > 0,
            out@ + spec_replace(s@.skip(i as int), pat@, rep@) == spec_replace(s@, pat@, rep@),
        decreases n - i,
    {
        let ghost rest = s@.skip(i as int);
        if m <= n - i && matches_at(s, pat, i) {
            out.append(rep);
            proof {
                assert(rest.subrange(0, pat@.len() as int) =~= s@.subrange(i as int, i + m));
                assert(rest.skip(pat@.len() as int) =~= s@.skip(i + m));
                assert(spec_replace(rest, pat@, rep@) == rep@ + spec_replace(
                    s@.skip(i + m),
                    pat@,
                    rep@,
                ));
                assert(out@ + spec_replace(s@.skip(i + m), pat@, rep@) =~= spec_replace(
                    s@,
                    pat@,
                    rep@,
                ));
            }
            i += m;
        } else {
            let piece = s.substring_char(i, i + 1);
            out.append(piece);
            proof {
                if rest.len() >= pat@.len() {
                    assert(rest.subrange(0, pat@.len() as int) =~= s@.subrange(i as int, i + m));
                    assert(rest.subrange(0, pat@.len() as int) != pat@);
                }
                assert(spec_replace(rest, pat@, rep@) == seq![rest[0]] + spec_replace(
                    rest.drop_first(),
                    pat@,
                    rep@,
                ));
                assert(piece@ =~= seq![rest[0]]);
                assert(rest.drop_first() =~= s@.skip(i + 1));
                assert(out@ + spec_replace(s@.skip(i + 1), pat@, rep@) =~= spec_replace(
                    s@,
                    pat@,
                    rep@,
                ));
            }
            i += 1;
        }
    }
    proof {
        assert(s@.skip(n as int).len() == 0);
        assert(out@ =~= spec_replace(s@, pat@, rep@));
    }
    out
}

/// One argument template with the three tokens substituted: `{model}` first,
/// then `{prompt}`, then `{prompt_file}`.
pub open spec fn spec_render(
    arg: Seq<char>,
    model: Seq<char>,
    prompt: Seq<char>,
    prompt_file: Seq<char>,
) -> Seq<char> {
    spec_replace(
        spec_replace(spec_replace(arg, "{model}"@, model), "{prompt}"@, prompt),
        "{prompt_file}"@,
        prompt_file,
    )
}

/// Substitute the `{model}`, `{prompt}` and `{prompt_file}` tokens in one
/// argument template.
pub fn replace_template(raw: &str, model: &str, prompt: &str, prompt_file: &str) -> (r: String)
    ensures
        r@ == spec_render(raw@, model@, prompt@, prompt_file@),
{
    proof {
        reveal_strlit("{model}");
        reveal_strlit("{prompt}");
        reveal_strlit("{prompt_file}");
    }
    let a = replace(raw, "{model}", model);
    let b = replace(a.as_str(), "{prompt}", prompt);
    replace(b.as_str(), "{prompt_file}", prompt_file)
}

/// One configured agent: knows how to turn a prompt into the concrete
/// command-line arguments of an invocation.
pub struct CliAgent {
    pub config: AgentConfig,
}

impl CliAgent {
    pub fn new(config: AgentConfig) -> (r: CliAgent)
        ensures
            r.config == config,
    {
        CliAgent { config }
    }

    /// The rendered argument list of one invocation: every configured
    /// template with the tokens substituted by the model id, the prompt text
    /// and the prompt file path.
    pub fn render_args(&self, prompt: &str, prompt_file: &str) -> (r: Vec<String>)
        ensures
            r.deep_view().len() == self.config.args.deep_view().len(),
            forall|i: int|
                0 <= i < r.deep_view().len() ==> r.deep_view()[i] == spec_render(
                    self.config.args.deep_view()[i],
                    self.config.model@,
                    prompt@,
                    prompt_file@,
                ),
    {
        let mut out: Vec<String> = Vec::new();
        let mut i: usize = 0;
        while i < self.config.args.len()
            invariant
                0 <= i <= self.config.args.len(),
                out.len() == i,
                forall|j: int|
                    0 <= j < i ==> out.deep_view()[j] == spec_render(
                        self.config.args.deep_view()[j],
                        self.config.model@,
                        prompt@,
                        prompt_file@,
                    ),
            decreases self.config.args.len() - i,
        {
            let ghost pre = out@;
            let ghost pre_deep = out.deep_view();
            let rendered = replace_template(
                self.config.args[i].as_str(),
                self.config.model.as_str(),
                prompt,
                prompt_file,
            );
            out.push(rendered);
            proof {
                assert forall|j: int| 0 <= j < i implies out.deep_view()[j] == pre_deep[j] by {
                    assert(out.deep_view()[j] == out@[j]@);
                    assert(out@[j] == pre[j]);
                    assert(pre_deep[j] == pre[j]@);
                }
                assert(out.deep_view()[i as int] == rendered@);
                assert(self.config.args.deep_view()[i as int] == self.config.args@[i as int]@);
                assert forall|j: int| 0 <= j < i + 1 implies out.deep_view()[j] == spec_render(
                    self.config.args.deep_view()[j],
                    self.config.model@,
                    prompt@,
                    prompt_file@,
                ) by {
                    if j < i {
                        assert(out.deep_view()[j] == pre_deep[j]);
                    }
                }
            }
            i += 1;
        }
        out
    }
}

} // verus!
