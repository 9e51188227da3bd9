//! The planner's computed parts: the plan data model, the planning
//! prompt, the clean-up of the planner's reply, and the context handed
//! from one agent step to the next.

use crate::textutil::{
    strip_prefix_all, strip_suffix_all, trim_end_matches_str, trim_spaces, trim_spaces_spec,
    trim_start_matches_str,
};
use vstd::prelude::*;
use vstd::string::StringExecFns;

verus! {

/// One agent step of a plan, with the profile fields an agent is
/// created from.
pub struct AgentStep {
    pub id: String,
    pub goal: String,
    pub description: String,
    pub tools: String,
    pub role: String,
    pub backstory: String,
    pub context: String,
    pub run_in_parallel: bool,
    /// The index of the earlier step whose output becomes this step's
    /// context, where one is named.
    pub needs_context_from: Option<usize>,
}

/// The mathematical shadow of `AgentStep`.
pub struct AgentStepV {
    pub id: Seq<char>,
    pub goal: Seq<char>,
    pub description: Seq<char>,
    pub tools: Seq<char>,
    pub role: Seq<char>,
    pub backstory: Seq<char>,
    pub context: Seq<char>,
    pub run_in_parallel: bool,
    pub needs_context_from: Option<usize>,
}

impl View for AgentStep {
    type V = AgentStepV;

    open spec fn view(&self) -> AgentStepV {
        AgentStepV {
            id: self.id@,
            goal: self.goal@,
            description: self.description@,
            tools: self.tools@,
            role: self.role@,
            backstory: self.backstory@,
            context: self.context@,
            run_in_parallel: self.run_in_parallel,
            needs_context_from: self.needs_context_from,
        }
    }
}

/// A whole plan: its agent steps in order.
pub struct PlannerAgentPlan {
    pub steps: Vec<AgentStep>,
}

/// The context an agent step starts with: the named earlier step's
/// output where one is named and there, else the step's own context
/// field.
pub open spec fn context_for_spec(step: AgentStepV, outputs: Seq<Option<Seq<char>>>) -> Seq<
    char,
> {
    match step.needs_context_from {
        Option::Some(i) => if i < outputs.len() && outputs[i as int] is Some {
            outputs[i as int]->Some_0
        } else {
            Seq::empty()
        },
        Option::None => step.context,
    }
}

/// Pick the context an agent step starts with from the earlier steps'
/// outputs.
pub fn context_for_step(step: &AgentStep, outputs: &Vec<Option<String>>) -> (r: String)
    ensures
        r@ == context_for_spec(step@, outputs.deep_view()),
{
    match &step.needs_context_from {
        Some(i) => {
            if *i < outputs.len() {
                proof {
                    assert(outputs.deep_view()[*i as int] == outputs@[*i as int].deep_view());
                }
                match &outputs[*i] {
                    Some(s) => s.clone(),
                    None => String::new(),
                }
            } else {
                String::new()
            }
        },
        None => step.context.clone(),
    }
}

/// The planner's reply with a leading json code fence, a leading bare
/// fence and a trailing fence removed, then trimmed.
pub open spec fn cleaned_plan_spec(s: Seq<char>) -> Seq<char> {
    trim_spaces_spec(
        strip_suffix_all(
            strip_prefix_all(strip_prefix_all(s, "```json"@), "```"@),
            "```"@,
        ),
    )
}

/// Strip code fences from the planner's reply and trim it.
pub fn clean_planner_response(s: &str) -> (r: String)
    ensures
        r@ == cleaned_plan_spec(s@),
{
    proof {
        reveal_strlit("```json");
        reveal_strlit("```");
    }
    let a = trim_start_matches_str(s, "```json");
    let b = trim_start_matches_str(a.as_str(), "```");
    let c = trim_end_matches_str(b.as_str(), "```");
    trim_spaces(c.as_str())
}

/// The prompt that asks the oracle for a step-by-step plan for the
/// user's request.
pub open spec fn gen_prompt_spec(user_task: Seq<char>) -> Seq<char> {
    "\nGenerate a high-level, step-by-step plan for the orchestrator AI to accomplish the user's request using its browser access and other available tools.\n\nContext:\n\nUser Request: "@
        + user_task
        + "\nOrchestrator Capabilities:\nAccess and interact with web browsers (navigate, click, type, scrape data, etc.).\nAccess to general knowledge.\nAbility to execute code (specify languages if applicable, e.g., Python for data manipulation).\n(Add any other specific tools or capabilities your orchestrator agent possesses).\nGoal: Create a plan that is logical, efficient, and breaks down the user's request into manageable steps for the orchestrator. Each step should be an actionable instruction.\n\nInstructions for the Planner Agent:\n- For each step, output a JSON object with the following structure:\n  - id: String (unique identifier for the agent step, e.g., \"ResponseAgent1\")\n  - parameters: Object containing:\n    - goal: String (the specific goal for this agent step)\n    - description: String (a brief description of what this agent does)\n    - tools: String (tools or APIs this agent will use)\n    - role: String (the role or type of agent, e.g., \"WebSearchAgent\")\n    - backstory: String (background or context for the agent, can be brief)\n    - context: String (any context or input needed from previous steps, or empty if none)\n  - run_in_parallel: Boolean (true if this agent can run in parallel with others)\n  - needs_context_from: Integer or null (index of previous step to get context from, or null)\n- Output the plan as a JSON object: {\"steps\": [{...}, ...]}\n- Do NOT output markdown or code block markers, only raw JSON.\n- Example output:\n{\n  \"steps\": [\n    {\n      \"id\": \"ResponseAgent1\",\n      \"parameters\": {\n        \"goal\": \"Find the top 3 footballers 2024\",\n        \"description\": \"Searches the web for the top 3 footballers in 2024.\",\n        \"tools\": \"web_search\",\n        \"role\": \"WebSearchAgent\",\n        \"backstory\": \"An agent skilled at searching the web for sports rankings.\",\n        \"context\": \"\"\n      },\n      \"run_in_parallel\": false,\n      \"needs_context_from\": null\n    },\n    ...\n  ]\n}\nNow, based on the User Request: "@
        + user_task + ", generate the plan."@
}

/// Assemble the planning prompt for the user's request.
pub fn gen_prompt(user_task: &str) -> (r: String)
    ensures
        r@ == gen_prompt_spec(user_task@),
{
    let mut s = String::from_str(
        "\nGenerate a high-level, step-by-step plan for the orchestrator AI to accomplish the user's request using its browser access and other available tools.\n\nContext:\n\nUser Request: ",
    );
    s.append(user_task);
    s.append(
        "\nOrchestrator Capabilities:\nAccess and interact with web browsers (navigate, click, type, scrape data, etc.).\nAccess to general knowledge.\nAbility to execute code (specify languages if applicable, e.g., Python for data manipulation).\n(Add any other specific tools or capabilities your orchestrator agent possesses).\nGoal: Create a plan that is logical, efficient, and breaks down the user's request into manageable steps for the orchestrator. Each step should be an actionable instruction.\n\nInstructions for the Planner Agent:\n- For each step, output a JSON object with the following structure:\n  - id: String (unique identifier for the agent step, e.g., \"ResponseAgent1\")\n  - parameters: Object containing:\n    - goal: String (the specific goal for this agent step)\n    - description: String (a brief description of what this agent does)\n    - tools: String (tools or APIs this agent will use)\n    - role: String (the role or type of agent, e.g., \"WebSearchAgent\")\n    - backstory: String (background or context for the agent, can be brief)\n    - context: String (any context or input needed from previous steps, or empty if none)\n  - run_in_parallel: Boolean (true if this agent can run in parallel with others)\n  - needs_context_from: Integer or null (index of previous step to get context from, or null)\n- Output the plan as a JSON object: {\"steps\": [{...}, ...]}\n- Do NOT output markdown or code block markers, only raw JSON.\n- Example output:\n{\n  \"steps\": [\n    {\n      \"id\": \"ResponseAgent1\",\n      \"parameters\": {\n        \"goal\": \"Find the top 3 footballers 2024\",\n        \"description\": \"Searches the web for the top 3 footballers in 2024.\",\n        \"tools\": \"web_search\",\n        \"role\": \"WebSearchAgent\",\n        \"backstory\": \"An agent skilled at searching the web for sports rankings.\",\n        \"context\": \"\"\n      },\n      \"run_in_parallel\": false,\n      \"needs_context_from\": null\n    },\n    ...\n  ]\n}\nNow, based on the User Request: ",
    );
    s.append(user_task);
    s.append(", generate the plan.");
    s
}

} // verus!
