//! The top-level orchestration prompt. The orchestration loop itself is
//! the same step engine with the smaller orchestration budget.

use vstd::prelude::*;
use vstd::string::StringExecFns;

verus! {

/// The orchestrator's per-step prompt over plan, URL, history and the
/// rendered element map.
pub open spec fn gen_prompt_spec(
    high_level_plan: Seq<char>,
    current_url: Seq<char>,
    task_history: Seq<char>,
    interactive_elements: Seq<char>,
) -> Seq<char> {
    "Here is the high-level plan:\n"@ + high_level_plan + "\n\nHere is the current URL:\n"@
        + current_url + "\n\nHere is the task history:\n"@ + task_history
        + "\n\nHere are the interactive elements on the page:\n"@ + interactive_elements
        + "\n\nBased on the high-level plan, the current URL, the task history, and the interactive elements, determine the next action to take. If the plan is not perfect, you might have to change the plan based on the given page. Output your decision in the JSON format specified above."@
}

/// Assemble the orchestrator's per-step prompt.
pub fn gen_prompt(
    high_level_plan: String,
    current_url: String,
    task_history: String,
    interactive_elements: String,
) -> (r: String)
    ensures
        r@ == gen_prompt_spec(
            high_level_plan@,
            current_url@,
            task_history@,
            interactive_elements@,
        ),
{
    let mut s = String::from_str("Here is the high-level plan:\n");
    s.append(high_level_plan.as_str());
    s.append("\n\nHere is the current URL:\n");
    s.append(current_url.as_str());
    s.append("\n\nHere is the task history:\n");
    s.append(task_history.as_str());
    s.append("\n\nHere are the interactive elements on the page:\n");
    s.append(interactive_elements.as_str());
    s.append(
        "\n\nBased on the high-level plan, the current URL, the task history, and the interactive elements, determine the next action to take. If the plan is not perfect, you might have to change the plan based on the given page. Output your decision in the JSON format specified above.",
    );
    s
}

} // verus!
