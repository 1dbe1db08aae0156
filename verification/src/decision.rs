//! The decision protocol: what the planner agent's raw output means. A
//! three-tier strategy, first success wins — the whole text as one structured
//! decision; the substring from the first `{` through the last `}` as one;
//! otherwise a synthesized delegation whose worker prompt is the trimmed raw
//! text, so the loop always has an actionable decision.
use crate::text::{find_first, find_last, find_char, rfind_char, trim_str, trimmed};
use vstd::prelude::*;
use vstd::string::StrSliceExecFns;
use vstd::string::StringExecFns;

verus! {

/// What the planner asks the loop to do next.
#[derive(Clone, Copy, PartialEq, Eq, Structural, Debug)]
pub enum LoopAction {
    Delegate,
    Done,
}

/// A parsed planner decision.
pub struct LoopDecision {
    pub action: LoopAction,
    pub target_item: Option<String>,
    pub worker_prompt: Option<String>,
    pub commit_message: Option<String>,
    pub reason: Option<String>,
}

/// Spec-level image of a decision.
pub ghost struct DecisionV {
    pub action: LoopAction,
    pub target_item: Option<Seq<char>>,
    pub worker_prompt: Option<Seq<char>>,
    pub commit_message: Option<Seq<char>>,
    pub reason: Option<Seq<char>>,
}

impl View for LoopDecision {
    type V = DecisionV;

    open spec fn view(&self) -> DecisionV {
        DecisionV {
            action: self.action,
            target_item: self.target_item.deep_view(),
            worker_prompt: self.worker_prompt.deep_view(),
            commit_message: self.commit_message.deep_view(),
            reason: self.reason.deep_view(),
        }
    }
}

#[verifier::external_type_specification]
#[verifier::external_body]
pub struct ExValue(serde_json::Value);

/// The JSON document a text parses to, if the whole text is valid JSON.
pub uninterp spec fn json_doc(s: Seq<char>) -> Option<serde_json::Value>;

/// The field named `key` of a JSON object value, when there is one.
pub uninterp spec fn json_field(v: serde_json::Value, key: Seq<char>) -> Option<serde_json::Value>;

/// The characters of a JSON string value, when `v` is one.
pub uninterp spec fn json_text(v: serde_json::Value) -> Option<Seq<char>>;

/// Whether a JSON value is null.
pub uninterp spec fn json_null(v: serde_json::Value) -> bool;

/// Relies on `serde_json::from_str::<Value>`: whether and how a text parses
/// as a single JSON document is a function of the text alone.
#[verifier::external_body]
fn json_parse(s: &str) -> (r: Option<serde_json::Value>)
    ensures
        r == json_doc(s@),
{
    serde_json::from_str::<serde_json::Value>(s).ok()
}

/// Relies on `serde_json::Value::get`: looks the key up in an object value,
/// and is `None` on non-objects and absent keys.
#[verifier::external_body]
fn json_get<'a>(v: &'a serde_json::Value, key: &str) -> (r: Option<&'a serde_json::Value>)
    ensures
        match r {
            Some(f) => json_field(*v, key@) == Some(*f),
            None => json_field(*v, key@) is None,
        },
{
    v.get(key)
}

/// Relies on `serde_json::Value::as_str`: the characters of a string value,
/// `None` for every other kind of value.
#[verifier::external_body]
fn json_as_str(v: &serde_json::Value) -> (r: Option<String>)
    ensures
        match r {
            Some(s) => json_text(*v) == Some(s@),
            None => json_text(*v) is None,
        },
{
    v.as_str().map(|s| s.to_owned())
}

/// Relies on `serde_json::Value::is_null`: true exactly for the null value.
#[verifier::external_body]
fn json_is_null(v: &serde_json::Value) -> (r: bool)
    ensures
        r == json_null(*v),
{
    v.is_null()
}

/// Reading an optional string field of the decision object: absent or null is
/// an absent field, a string is its text, and any other value is a shape
/// mismatch (the outer `None`).
pub open spec fn opt_str_field(v: serde_json::Value, key: Seq<char>) -> Option<Option<Seq<char>>> {
    match json_field(v, key) {
        None => Some(None),
        Some(f) => if json_null(f) {
            Some(None)
        } else {
            match json_text(f) {
                Some(s) => Some(Some(s)),
                None => None,
            }
        },
    }
}

/// The decision a JSON document describes: its `action` field must be the
/// string "delegate" or "done", and each optional field must be absent, null
/// or a string; anything else is no decision.
pub open spec fn decision_of_doc(v: serde_json::Value) -> Option<DecisionV> {
    match json_field(v, "action"@) {
        None => None,
        Some(a) => match json_text(a) {
            None => None,
            Some(astr) => if astr == "delegate"@ || astr == "done"@ {
                match opt_str_field(v, "target_item"@) {
                    None => None,
                    Some(t) => match opt_str_field(v, "worker_prompt"@) {
                        None => None,
                        Some(w) => match opt_str_field(v, "commit_message"@) {
                            None => None,
                            Some(c) => match opt_str_field(v, "reason"@) {
                                None => None,
                                Some(r) => Some(
                                    DecisionV {
                                        action: if astr == "delegate"@ {
                                            LoopAction::Delegate
                                        } else {
                                            LoopAction::Done
                                        },
                                        target_item: t,
                                        worker_prompt: w,
                                        commit_message: c,
                                        reason: r,
                                    },
                                ),
                            },
                        },
                    },
                }
            } else {
                None
            },
        },
    }
}

/// The decision of a text that is entirely one structured decision document.
pub open spec fn strict_decision(s: Seq<char>) -> Option<DecisionV> {
    match json_doc(s) {
        Some(v) => decision_of_doc(v),
        None => None,
    }
}

/// The substring from the first `{` through the last `}`, when both exist in
/// that order: the candidate for an embedded decision object.
pub open spec fn spec_extract(s: Seq<char>) -> Option<Seq<char>> {
    let a = find_first(s, '{');
    let b = find_last(s, '}');
    if a < s.len() && 0 <= b && a < b {
        Some(s.subrange(a, b + 1))
    } else {
        None
    }
}

/// The decision synthesized when no tier parses: delegate, with the trimmed
/// raw text as the worker prompt.
pub open spec fn fallback_decision(s: Seq<char>) -> DecisionV {
    DecisionV {
        action: LoopAction::Delegate,
        target_item: None,
        worker_prompt: Some(trimmed(s)),
        commit_message: None,
        reason: None,
    }
}

/// What parsing a planner output yields: the strict tier, else the embedded
/// object tier, else the fallback synthesis.
pub open spec fn spec_parse_decision(s: Seq<char>) -> DecisionV {
    match strict_decision(s) {
        Some(d) => d,
        None => match spec_extract(s) {
            Some(sub) => match strict_decision(sub) {
                Some(d) => d,
                None => fallback_decision(s),
            },
            None => fallback_decision(s),
        },
    }
}

fn opt_str_field_exec(v: &serde_json::Value, key: &str) -> (r: Option<Option<String>>)
    ensures
        match r {
            Some(o) => opt_str_field(*v, key@) == Some(o.deep_view()),
            None => opt_str_field(*v, key@) is None,
        },
{
    match json_get(v, key) {
        None => Some(None),
        Some(f) => {
            if json_is_null(f) {
                Some(None)
            } else {
                match json_as_str(f) {
                    Some(s) => Some(Some(s)),
                    None => None,
                }
            }
        },
    }
}

fn decision_of_doc_exec(v: &serde_json::Value) -> (r: Option<LoopDecision>)
    ensures
        match r {
            Some(d) => decision_of_doc(*v) == Some(d@),
            None => decision_of_doc(*v) is None,
        },
{
    let action_field = match json_get(v, "action") {
        Some(a) => a,
        None => {
            return None;
        },
    };
    let action_text = match json_as_str(action_field) {
        Some(s) => s,
        None => {
            return None;
        },
    };
    let is_delegate = crate::text::str_eq(action_text.as_str(), "delegate");
    let is_done = crate::text::str_eq(action_text.as_str(), "done");
    if !is_delegate && !is_done {
        return None;
    }
    let target_item = match opt_str_field_exec(v, "target_item") {
        Some(o) => o,
        None => {
            return None;
        },
    };
    let worker_prompt = match opt_str_field_exec(v, "worker_prompt") {
        Some(o) => o,
        None => {
            return None;
        },
    };
    let commit_message = match opt_str_field_exec(v, "commit_message") {
        Some(o) => o,
        None => {
            return None;
        },
    };
    let reason = match opt_str_field_exec(v, "reason") {
        Some(o) => o,
        None => {
            return None;
        },
    };
    let action = if is_delegate {
        LoopAction::Delegate
    } else {
        LoopAction::Done
    };
    Some(LoopDecision { action, target_item, worker_prompt, commit_message, reason })
}

/// The substring from the first `{` through the last `}` of `raw`, when both
/// exist in that order.
pub fn extract_json_object(raw: &str) -> (r: Option<String>)
    ensures
        match r {
            Some(s) => spec_extract(raw@) == Some(s@),
            None => spec_extract(raw@) is None,
        },
{
    let n = raw.unicode_len();
    let a = match find_char(raw, '{') {
        Some(a) => a,
        None => {
            return None;
        },
    };
    let b = match rfind_char(raw, '}') {
        Some(b) => b,
        None => {
            return None;
        },
    };
    if b <= a {
        return None;
    }
    proof {
        assert(b < n);
    }
    let sub = raw.substring_char(a, b + 1);
    proof {
        assert(sub@ =~= raw@.subrange(a as int, b + 1));
    }
    Some(String::from_str(sub))
}

/// Parse a planner output into a decision: the whole text as a structured
/// decision, else an embedded `{...}` object, else a synthesized delegation
/// carrying the trimmed raw text as the worker prompt.
pub fn parse_loop_decision(raw: &str) -> (r: LoopDecision)
    ensures
        r@ == spec_parse_decision(raw@),
{
    if let Some(v) = json_parse(raw) {
        if let Some(d) = decision_of_doc_exec(&v) {
            return d;
        }
    }
    if let Some(sub) = extract_json_object(raw) {
        if let Some(v) = json_parse(sub.as_str()) {
            if let Some(d) = decision_of_doc_exec(&v) {
                return d;
            }
        }
    }
    LoopDecision {
        action: LoopAction::Delegate,
        target_item: None,
        worker_prompt: Some(String::from_str(trim_str(raw))),
        commit_message: None,
        reason: None,
    }
}

} // verus!
