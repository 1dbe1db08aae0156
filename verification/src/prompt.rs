//! Prompt assembly for the two agents. The planner prompt lists the
//! configuration's visible files and tests, the completed and remaining
//! checklist items and the prior iteration's context; the implementer prompt
//! carries the targeted item, its task, and — on a fix attempt — the prior
//! failure output.
use crate::config::AppConfig;
use crate::prd::{checked_of, texts_of, unchecked_of, ItemV, PrdDocument, PrdItem};
use crate::text::{join_lines, join_with_newlines, spec_truncate, truncate};
use vstd::prelude::*;
use vstd::string::StrSliceExecFns;
use vstd::string::StringExecFns;

verus! {

/// Each line prefixed with "- ".
pub open spec fn dashed(ls: Seq<Seq<char>>) -> Seq<Seq<char>> {
    Seq::new(ls.len(), |i: int| "- "@ + ls[i])
}

/// The lines as a dash bullet list, one per line.
pub open spec fn bullet_list(ls: Seq<Seq<char>>) -> Seq<char> {
    join_lines(dashed(ls))
}

/// A bullet list, or "(none)" when there is nothing to list.
pub open spec fn spec_format_lines(ls: Seq<Seq<char>>) -> Seq<char> {
    if ls.len() == 0 {
        "(none)"@
    } else {
        bullet_list(ls)
    }
}

fn bullet_list_exec(ls: &Vec<String>) -> (r: String)
    ensures
        r@ == bullet_list(ls.deep_view()),
{
    let mut dash: Vec<String> = Vec::new();
    let mut i: usize = 0;
    while i < ls.len()
        invariant
            0 <= i <= ls.len(),
            dash.len() == i,
            forall|j: int| 0 <= j < i ==> dash.deep_view()[j] == dashed(ls.deep_view())[j],
        decreases ls.len() - i,
    {
        let ghost pre = dash@;
        let ghost pre_deep = dash.deep_view();
        let mut line = String::from_str("- ");
        line.append(ls[i].as_str());
        dash.push(line);
        proof {
            assert forall|j: int| 0 <= j < i + 1 implies dash.deep_view()[j] == dashed(
                ls.deep_view(),
            )[j] by {
                assert(dash.deep_view()[j] == dash@[j]@);
                if j < i {
                    assert(dash@[j] == pre[j]);
                    assert(pre_deep[j] == pre[j]@);
                } else {
                    assert(ls.deep_view()[j] == ls@[j]@);
                }
            }
        }
        i += 1;
    }
    proof {
        assert(dash.deep_view() =~= dashed(ls.deep_view()));
    }
    join_with_newlines(&dash, false)
}

/// Render a list of lines as dash bullets, with "(none)" standing in for an
/// empty list.
pub fn format_lines(ls: &Vec<String>) -> (r: String)
    ensures
        r@ == spec_format_lines(ls.deep_view()),
{
    if ls.len() == 0 {
        proof {
            assert(ls.deep_view().len() == 0);
        }
        String::from_str("(none)")
    } else {
        proof {
            assert(ls.deep_view().len() > 0);
        }
        bullet_list_exec(ls)
    }
}

fn checked_items(prd: &PrdDocument) -> (r: Vec<PrdItem>)
    ensures
        r.deep_view() == checked_of(prd@),
{
    let mut out: Vec<PrdItem> = Vec::new();
    let mut i: usize = 0;
    proof {
        assert(out.deep_view() =~= checked_of(prd@.take(0)));
    }
    while i < prd.items.len()
        invariant
            0 <= i <= prd.items.len(),
            prd@.len() == prd.items.len(),
            out.deep_view() == checked_of(prd@.take(i as int)),
        decreases prd.items.len() - i,
    {
        if prd.items[i].checked {
            let copy = PrdItem { text: prd.items[i].text.clone(), checked: true };
            proof {
                assert(copy@ == prd@[i as int]);
            }
            out.push(copy);
        }
        proof {
            assert(prd@.take(i + 1).drop_last() =~= prd@.take(i as int));
            assert(prd@.take(i + 1).last() == prd@[i as int]);
            assert(out.deep_view() =~= checked_of(prd@.take(i + 1)));
        }
        i += 1;
    }
    proof {
        assert(prd@.take(prd.items.len() as int) =~= prd@);
    }
    out
}

fn texts_vec(items: &Vec<PrdItem>) -> (r: Vec<String>)
    ensures
        r.deep_view() == texts_of(items.deep_view()),
{
    let mut out: Vec<String> = Vec::new();
    let mut i: usize = 0;
    while i < items.len()
        invariant
            0 <= i <= items.len(),
            out.len() == i,
            forall|j: int| 0 <= j < i ==> out.deep_view()[j] == items.deep_view()[j].text,
        decreases items.len() - i,
    {
        let ghost pre = out@;
        let ghost pre_deep = out.deep_view();
        out.push(items[i].text.clone());
        proof {
            assert forall|j: int|
                0 <= j < i + 1 implies out.deep_view()[j] == items.deep_view()[j].text by {
                assert(out.deep_view()[j] == out@[j]@);
                if j < i {
                    assert(out@[j] == pre[j]);
                    assert(pre_deep[j] == pre[j]@);
                } else {
                    assert(items.deep_view()[j] == items@[j]@);
                }
            }
        }
        i += 1;
    }
    proof {
        assert(out.deep_view() =~= texts_of(items.deep_view()));
    }
    out
}

/// The planner prompt: the planner's system prompt, its role, the checklist
/// path, the visible files and tests, the execution tests, the completed and
/// remaining items, the prior context, and the reply schema.
pub open spec fn spec_loop_prompt(
    cfg: AppConfig,
    prd_path: Seq<char>,
    items: Seq<ItemV>,
    loop_context: Seq<char>,
    execution_tests: Seq<Seq<char>>,
) -> Seq<char> {
    cfg.loop_agent.system_prompt@
        + "\n\nRole: Loop manager (fast model). Decide the next task for the implementation agent.\nPRD file: "@
        + prd_path + "\n\nVisible files for you:\n"@ + spec_format_lines(
        cfg.loop_agent.visible_files.deep_view(),
    ) + "\n\nVisible tests for you:\n"@ + spec_format_lines(cfg.loop_agent.visible_tests.deep_view())
        + "\n\nExecution tests run by orchestrator:\n"@ + spec_format_lines(execution_tests)
        + "\n\nCompleted PRD items:\n"@ + spec_format_lines(texts_of(checked_of(items)))
        + "\n\nRemaining PRD items:\n"@ + bullet_list(texts_of(unchecked_of(items)))
        + "\n\nPrior orchestration context:\n"@ + (if loop_context.len() == 0 {
        "(none)"@
    } else {
        loop_context
    })
        + "\n\nRespond with JSON only:\n{\n  \"action\": \"delegate\" | \"done\",\n  \"target_item\": \"exact PRD item text to execute\",\n  \"worker_prompt\": \"concrete implementation instructions\",\n  \"commit_message\": \"optional commit message\",\n  \"reason\": \"optional short rationale\"\n}\n"@
}

/// Build the planner prompt for one iteration.
pub fn build_loop_prompt(
    cfg: &AppConfig,
    prd_path: &str,
    prd: &PrdDocument,
    loop_context: &str,
    execution_tests: &Vec<String>,
) -> (r: String)
    ensures
        r@ == spec_loop_prompt(*cfg, prd_path@, prd@, loop_context@, execution_tests.deep_view()),
{
    let checked = checked_items(prd);
    let completed = texts_vec(&checked);
    let unchecked = prd.unchecked_items();
    let remaining = texts_vec(&unchecked);
    let mut out = String::new();
    out.append(cfg.loop_agent.system_prompt.as_str());
    out.append(
        "\n\nRole: Loop manager (fast model). Decide the next task for the implementation agent.\nPRD file: ",
    );
    out.append(prd_path);
    out.append("\n\nVisible files for you:\n");
    let files_block = format_lines(&cfg.loop_agent.visible_files);
    out.append(files_block.as_str());
    out.append("\n\nVisible tests for you:\n");
    let tests_block = format_lines(&cfg.loop_agent.visible_tests);
    out.append(tests_block.as_str());
    out.append("\n\nExecution tests run by orchestrator:\n");
    let exec_block = format_lines(execution_tests);
    out.append(exec_block.as_str());
    out.append("\n\nCompleted PRD items:\n");
    let completed_block = format_lines(&completed);
    out.append(completed_block.as_str());
    out.append("\n\nRemaining PRD items:\n");
    let remaining_block = bullet_list_exec(&remaining);
    out.append(remaining_block.as_str());
    out.append("\n\nPrior orchestration context:\n");
    if loop_context.unicode_len() == 0 {
        out.append("(none)");
    } else {
        out.append(loop_context);
    }
    out.append(
        "\n\nRespond with JSON only:\n{\n  \"action\": \"delegate\" | \"done\",\n  \"target_item\": \"exact PRD item text to execute\",\n  \"worker_prompt\": \"concrete implementation instructions\",\n  \"commit_message\": \"optional commit message\",\n  \"reason\": \"optional short rationale\"\n}\n",
    );
    proof {
        assert(out@ =~= spec_loop_prompt(
            *cfg,
            prd_path@,
            prd@,
            loop_context@,
            execution_tests.deep_view(),
        ));
    }
    out
}

/// The implementer prompt: the worker's system prompt, the targeted item and
/// its task, the visible files and tests, the execution tests, a failure
/// block when this is a fix attempt, and the reporting instructions.
pub open spec fn spec_worker_prompt(
    cfg: AppConfig,
    target_item: Seq<char>,
    worker_task: Seq<char>,
    failure_output: Option<Seq<char>>,
    execution_tests: Seq<Seq<char>>,
) -> Seq<char> {
    cfg.worker_agent.system_prompt@
        + "\n\nRole: Implementation agent (slower, stronger model).\nCurrent PRD item:\n"@
        + target_item + "\n\nTask:\n"@ + worker_task + "\n\nYou may focus on these files:\n"@
        + spec_format_lines(cfg.worker_agent.visible_files.deep_view())
        + "\n\nYou should internally validate against these tests:\n"@ + spec_format_lines(
        cfg.worker_agent.visible_tests.deep_view(),
    ) + "\n\nThe orchestrator will run this test suite after your turn:\n"@ + spec_format_lines(
        execution_tests,
    ) + "\n\n"@ + (match failure_output {
        Some(o) => "Previous test failures to fix first:\n"@ + spec_truncate(o, 3000) + "\n"@,
        None => Seq::<char>::empty(),
    })
        + "\nKeep output concise. Include:\n1) What changed\n2) What remains risky\n3) Suggested commit message\n"@
}

/// Build the implementer prompt for a delegation or a fix attempt.
pub fn build_worker_prompt(
    cfg: &AppConfig,
    target_item: &str,
    worker_task: &str,
    failure_output: Option<&str>,
    execution_tests: &Vec<String>,
) -> (r: String)
    ensures
        r@ == spec_worker_prompt(
            *cfg,
            target_item@,
            worker_task@,
            match failure_output {
                Some(o) => Some(o@),
                None => None,
            },
            execution_tests.deep_view(),
        ),
{
    let mut out = String::new();
    out.append(cfg.worker_agent.system_prompt.as_str());
    out.append("\n\nRole: Implementation agent (slower, stronger model).\nCurrent PRD item:\n");
    out.append(target_item);
    out.append("\n\nTask:\n");
    out.append(worker_task);
    out.append("\n\nYou may focus on these files:\n");
    let files_block = format_lines(&cfg.worker_agent.visible_files);
    out.append(files_block.as_str());
    out.append("\n\nYou should internally validate against these tests:\n");
    let tests_block = format_lines(&cfg.worker_agent.visible_tests);
    out.append(tests_block.as_str());
    out.append("\n\nThe orchestrator will run this test suite after your turn:\n");
    let exec_block = format_lines(execution_tests);
    out.append(exec_block.as_str());
    out.append("\n\n");
    match failure_output {
        Some(o) => {
            out.append("Previous test failures to fix first:\n");
            let cut = truncate(o, 3000);
            out.append(cut.as_str());
            out.append("\n");
        },
        None => {},
    }
    out.append(
        "\nKeep output concise. Include:\n1) What changed\n2) What remains risky\n3) Suggested commit message\n",
    );
    proof {
        assert(out@ =~= spec_worker_prompt(
            *cfg,
            target_item@,
            worker_task@,
            match failure_output {
                Some(o) => Some(o@),
                None => None::<Seq<char>>,
            },
            execution_tests.deep_view(),
        ));
    }
    out
}

} // verus!
