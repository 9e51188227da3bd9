//! The task agent's computed parts: the full oracle input for one step,
//! and the clean-up of the oracle's raw reply before decoding.

use crate::prompts::AGENT_TASK_PROMPT;
use crate::textutil::{replace_all, replace_str};
use vstd::prelude::*;
use vstd::string::StrSliceExecFns;
use vstd::string::StringExecFns;

verus! {

/// One tracked task.
pub struct Task {
    pub id: u32,
    pub description: String,
    pub status: String,
}

/// The structured shape of one oracle turn, as the wire format frames
/// it; the action is kept as its JSON text.
pub struct TaskHistory {
    pub evaluation_previous_goal: String,
    pub memory: String,
    pub next_goal: String,
    pub action: String,
    pub done: bool,
    pub final_result: Option<String>,
}

/// The whole text sent to the oracle for one step: the fixed task
/// prompt, then the per-step context.
pub open spec fn task_input_spec(last_step: Seq<char>) -> Seq<char> {
    AGENT_TASK_PROMPT@ + last_step
}

/// Put the fixed task prompt in front of the per-step context.
pub fn build_task_input(last_step: &str) -> (r: String)
    ensures
        r@ == task_input_spec(last_step@),
{
    let mut s = AGENT_TASK_PROMPT.to_owned();
    s.append(last_step);
    s
}

/// The oracle's raw reply with code-fence markers and line breaks
/// removed, in that order.
pub open spec fn cleaned_reply(s: Seq<char>) -> Seq<char> {
    replace_all(
        replace_all(replace_all(s, "```json"@, Seq::empty()), "```"@, Seq::empty()),
        "\n"@,
        Seq::empty(),
    )
}

/// Strip code fences and line breaks from the oracle's raw reply.
pub fn clean_oracle_reply(s: &str) -> (r: String)
    ensures
        r@ == cleaned_reply(s@),
{
    proof {
        reveal_strlit("");
        reveal_strlit("```json");
        reveal_strlit("```");
        reveal_strlit("\n");
        assert(""@ =~= Seq::<char>::empty());
    }
    let a = replace_str(s, "```json", "");
    let b = replace_str(a.as_str(), "```", "");
    replace_str(b.as_str(), "\n", "")
}

} // verus!
