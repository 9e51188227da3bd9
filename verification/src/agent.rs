//! The step engine. It owns the run state — plan, step budget, history,
//! visited-extraction set and final answer — and advances it one step at
//! a time. All browser and oracle work is done by the caller, which
//! feeds results back in: every decision in between is made here.

use crate::executor::{
    decode_spec, directive_spec, outcome_text, ActionV, BrowserCommand, BrowserCommandV,
    DecodedV, Directive, DirectiveV, Reason, ReasonV, StepOutcome, StepOutcomeV,
};
use crate::executor::step_directive;
use crate::numtext::dec_of;
use crate::numtext::to_decimal;
use crate::textutil::{join_with, lines_of, split_lines, trim_spaces, trim_spaces_spec};
use vstd::prelude::*;
use vstd::string::StrSliceExecFns;
use vstd::string::StringExecFns;

verus! {

/// The step budget of one agent run.
pub const DEFAULT_MAX_STEPS: u64 = 25;

/// The step budget of a top-level orchestration run.
pub const ORCHESTRATOR_MAX_STEPS: u64 = 10;

/// One structured history record: which goal was worked on at which
/// step, and how it ended. The timestamp is milliseconds since the
/// epoch, supplied by the caller.
pub struct TaskRecord {
    pub step: u64,
    pub action: String,
    pub result: String,
    pub timestamp: u64,
}

/// The mathematical shadow of `TaskRecord`.
pub struct TaskRecordV {
    pub step: u64,
    pub action: Seq<char>,
    pub result: Seq<char>,
    pub timestamp: u64,
}

impl View for TaskRecord {
    type V = TaskRecordV;

    open spec fn view(&self) -> TaskRecordV {
        TaskRecordV {
            step: self.step,
            action: self.action@,
            result: self.result@,
            timestamp: self.timestamp,
        }
    }
}

impl DeepView for TaskRecord {
    type V = TaskRecordV;

    open spec fn deep_view(&self) -> TaskRecordV {
        self@
    }
}

/// The run-local state of the step engine.
pub struct RunState {
    /// Steps begun so far; strictly increasing, never above `max_steps`.
    pub current_step: u64,
    /// The step budget: the only cancellation mechanism of a run.
    pub max_steps: u64,
    /// The goals still ahead, first one current.
    pub plan: Vec<String>,
    /// Whether the plan is one persistent goal, consumed repeatedly
    /// rather than removed once completed.
    pub persistent: bool,
    /// The goals marked complete so far, in order.
    pub completed_tasks: Vec<String>,
    /// The answer the run ends with, once one is known.
    pub final_answer: Option<String>,
    /// Whether the run is over.
    pub terminated: bool,
}

/// The mathematical shadow of `RunState`.
#[verifier::ext_equal]
pub struct RunStateV {
    pub current_step: u64,
    pub max_steps: u64,
    pub plan: Seq<Seq<char>>,
    pub persistent: bool,
    pub completed_tasks: Seq<Seq<char>>,
    pub final_answer: Option<Seq<char>>,
    pub terminated: bool,
}

impl View for RunState {
    type V = RunStateV;

    open spec fn view(&self) -> RunStateV {
        RunStateV {
            current_step: self.current_step,
            max_steps: self.max_steps,
            plan: self.plan.deep_view(),
            persistent: self.persistent,
            completed_tasks: self.completed_tasks.deep_view(),
            final_answer: self.final_answer.deep_view(),
            terminated: self.terminated,
        }
    }
}

/// The step engine with its profile and run state.
pub struct AIAgent {
    pub id: String,
    pub goal: String,
    pub description: String,
    pub tools: String,
    pub role: String,
    pub backstory: String,
    pub context: String,
    /// Structured per-step records of this run.
    pub task_history: Vec<TaskRecord>,
    /// The narrative history log, append-only, owned by the engine.
    pub history: Vec<String>,
    /// URLs whose content extraction already succeeded in this run.
    pub extracted_urls: Vec<String>,
    /// The most recent highlighted screenshot, base64-encoded, if any.
    pub last_screenshot: Option<String>,
    pub run: RunState,
}

/// The mathematical shadow of `AIAgent`.
#[verifier::ext_equal]
pub struct AIAgentV {
    pub id: Seq<char>,
    pub goal: Seq<char>,
    pub description: Seq<char>,
    pub tools: Seq<char>,
    pub role: Seq<char>,
    pub backstory: Seq<char>,
    pub context: Seq<char>,
    pub task_history: Seq<TaskRecordV>,
    pub history: Seq<Seq<char>>,
    pub extracted_urls: Seq<Seq<char>>,
    pub last_screenshot: Option<Seq<char>>,
    pub run: RunStateV,
}

impl View for AIAgent {
    type V = AIAgentV;

    open spec fn view(&self) -> AIAgentV {
        AIAgentV {
            id: self.id@,
            goal: self.goal@,
            description: self.description@,
            tools: self.tools@,
            role: self.role@,
            backstory: self.backstory@,
            context: self.context@,
            task_history: self.task_history.deep_view(),
            history: self.history.deep_view(),
            extracted_urls: self.extracted_urls.deep_view(),
            last_screenshot: self.last_screenshot.deep_view(),
            run: self.run@,
        }
    }
}

/// The engine's invariant: the step counter stays within the budget, a
/// persistent plan is exactly one goal, and the visited-extraction set
/// holds no URL twice.
pub open spec fn inv_v(a: AIAgentV) -> bool {
    &&& a.run.current_step <= a.run.max_steps
    &&& a.run.persistent ==> a.run.plan.len() == 1
    &&& forall|i: int, j: int|
        0 <= i < j < a.extracted_urls.len() ==> a.extracted_urls[i] != a.extracted_urls[j]
}

/// The goal split into its non-empty trimmed lines.
pub open spec fn plan_lines(goal: Seq<char>) -> Seq<Seq<char>> {
    lines_of(goal).map_values(|l: Seq<char>| trim_spaces_spec(l)).filter(
        |l: Seq<char>| l.len() > 0,
    )
}

/// The initial plan: the goal's non-empty trimmed lines, except that a
/// single-line goal becomes one persistent goal, kept whole.
pub open spec fn plan_of(goal: Seq<char>) -> Seq<Seq<char>> {
    if plan_lines(goal).len() == 1 {
        seq![goal]
    } else {
        plan_lines(goal)
    }
}

/// Whether the plan is one persistent goal.
pub open spec fn plan_persistent(goal: Seq<char>) -> bool {
    plan_lines(goal).len() == 1
}

/// The engine as `new` leaves it.
pub open spec fn new_spec(
    id: Seq<char>,
    goal: Seq<char>,
    description: Seq<char>,
    tools: Seq<char>,
    role: Seq<char>,
    backstory: Seq<char>,
    context: Seq<char>,
) -> AIAgentV {
    AIAgentV {
        id: id,
        goal: goal,
        description: description,
        tools: tools,
        role: role,
        backstory: backstory,
        context: context,
        task_history: Seq::empty(),
        history: Seq::empty(),
        extracted_urls: Seq::empty(),
        last_screenshot: Option::None,
        run: RunStateV {
            current_step: 0,
            max_steps: DEFAULT_MAX_STEPS,
            plan: plan_of(goal),
            persistent: plan_persistent(goal),
            completed_tasks: Seq::empty(),
            final_answer: Option::None,
            terminated: false,
        },
    }
}

fn nonempty_trimmed_lines(goal: &str) -> (r: Vec<String>)
    ensures
        r.deep_view() == plan_lines(goal@),
{
    let lines = split_lines(goal);
    let n = lines.len();
    let mut out: Vec<String> = Vec::new();
    let mut i: usize = 0;
    proof {
        let lv = lines@.map_values(|w: String| w@);
        assert(lv.subrange(0, 0).map_values(|l: Seq<char>| trim_spaces_spec(l)).filter(
            |l: Seq<char>| l.len() > 0,
        ) =~= Seq::<Seq<char>>::empty());
        assert(out.deep_view() =~= Seq::<Seq<char>>::empty());
    }
    while i < n
        invariant
            0 <= i <= n,
            n == lines@.len(),
            lines@.map_values(|w: String| w@) == lines_of(goal@),
            out.deep_view() == lines_of(goal@).subrange(0, i as int).map_values(
                |l: Seq<char>| trim_spaces_spec(l),
            ).filter(|l: Seq<char>| l.len() > 0),
        decreases n - i,
    {
        let t = trim_spaces(lines[i].as_str());
        proof {
            let lv = lines_of(goal@);
            let pre = lv.subrange(0, i as int);
            let pre1 = lv.subrange(0, i + 1);
            let tm = |l: Seq<char>| trim_spaces_spec(l);
            let p = |l: Seq<char>| l.len() > 0;
            assert(lv[i as int] == lines@.map_values(|w: String| w@)[i as int]);
            assert(pre1 =~= pre.push(lv[i as int]));
            assert(pre1.map_values(tm) =~= pre.map_values(tm).push(tm(lv[i as int])));
            let m = pre.map_values(tm);
            let x = tm(lv[i as int]);
            assert(m.push(x).drop_last() =~= m);
            assert(m.push(x).last() == x);
            reveal(Seq::filter);
            if p(x) {
                assert(pre1.map_values(tm).filter(p) =~= m.filter(p).push(x));
            } else {
                assert(pre1.map_values(tm).filter(p) =~= m.filter(p));
            }
        }
        if !t.as_str().is_empty() {
            proof {
                assert((out@ + seq![t]).map_values(|w: String| w.deep_view()) =~= out.deep_view()
                    + seq![t@]);
            }
            out.push(t);
        }
        i = i + 1;
    }
    proof {
        assert(lines_of(goal@).subrange(0, n as int) =~= lines_of(goal@));
    }
    out
}

impl AIAgent {
    /// Whether the engine's invariant holds.
    pub open spec fn inv(&self) -> bool {
        inv_v(self@)
    }

    /// A fresh engine for one run: the plan is derived from the goal,
    /// nothing is recorded yet, and the budget is the default.
    pub fn new(
        id: String,
        goal: String,
        description: String,
        tools: String,
        role: String,
        backstory: String,
        context: String,
    ) -> (r: AIAgent)
        ensures
            r@ == new_spec(id@, goal@, description@, tools@, role@, backstory@, context@),
            r.inv(),
    {
        let lines = nonempty_trimmed_lines(goal.as_str());
        let persistent = lines.len() == 1;
        let plan = if persistent {
            let mut single: Vec<String> = Vec::new();
            single.push(goal.clone());
            proof {
                assert(single.deep_view() =~= seq![goal@]);
            }
            single
        } else {
            lines
        };
        let r = AIAgent {
            id,
            goal,
            description,
            tools,
            role,
            backstory,
            context,
            task_history: Vec::new(),
            history: Vec::new(),
            extracted_urls: Vec::new(),
            last_screenshot: None,
            run: RunState {
                current_step: 0,
                max_steps: DEFAULT_MAX_STEPS,
                plan,
                persistent,
                completed_tasks: Vec::new(),
                final_answer: None,
                terminated: false,
            },
        };
        proof {
            assert(r.task_history.deep_view() =~= Seq::<TaskRecordV>::empty());
            assert(r.history.deep_view() =~= Seq::<Seq<char>>::empty());
            assert(r.extracted_urls.deep_view() =~= Seq::<Seq<char>>::empty());
            assert(r.run.completed_tasks.deep_view() =~= Seq::<Seq<char>>::empty());
            assert(r@ =~~= new_spec(
                r.id@,
                r.goal@,
                r.description@,
                r.tools@,
                r.role@,
                r.backstory@,
                r.context@,
            ));
        }
        r
    }

    /// Lower or raise the step budget before or during a run; used for
    /// top-level orchestration and for short test runs.
    pub fn set_max_steps(&mut self, max_steps: u64)
        requires
            old(self).inv(),
            old(self)@.run.current_step <= max_steps,
        ensures
            final(self).inv(),
            final(self)@ == (AIAgentV {
                run: RunStateV { max_steps: max_steps, ..old(self)@.run },
                ..old(self)@
            }),
    {
        self.run.max_steps = max_steps;
        proof {
            assert(self@ =~~= (AIAgentV {
                run: RunStateV { max_steps: max_steps, ..old(self)@.run },
                ..old(self)@
            }));
        }
    }

    /// The structured records of this run so far.
    pub fn get_task_history(&self) -> (r: &Vec<TaskRecord>)
        ensures
            r.deep_view() == self@.task_history,
    {
        &self.task_history
    }

    /// Forget the structured records.
    pub fn clear_task_history(&mut self)
        requires
            old(self).inv(),
        ensures
            final(self).inv(),
            final(self)@ == (AIAgentV { task_history: Seq::empty(), ..old(self)@ }),
    {
        self.task_history.clear();
        proof {
            assert(self.task_history.deep_view() =~= Seq::<TaskRecordV>::empty());
            assert(self@ =~~= (AIAgentV { task_history: Seq::empty(), ..old(self)@ }));
        }
    }

    /// Whether this run already extracted content from the URL.
    pub fn has_extracted_content_from_url(&self, url: &str) -> (r: bool)
        ensures
            r == self@.extracted_urls.contains(url@),
    {
        let n = self.extracted_urls.len();
        let mut i: usize = 0;
        while i < n
            invariant
                0 <= i <= n,
                n == self.extracted_urls@.len(),
                forall|j: int| 0 <= j < i ==> self@.extracted_urls[j] != url@,
            decreases n - i,
        {
            proof {
                assert(self@.extracted_urls[i as int] == self.extracted_urls@[i as int]@);
            }
            if crate::textutil::str_eq(self.extracted_urls[i].as_str(), url) {
                proof {
                    assert(self@.extracted_urls[i as int] == url@);
                }
                return true;
            }
            i = i + 1;
        }
        proof {
            if self@.extracted_urls.contains(url@) {
                let w = choose|k: int|
                    0 <= k < self@.extracted_urls.len() && self@.extracted_urls[k] == url@;
                assert(false);
            }
        }
        false
    }

    /// Remember that the URL's content was extracted. The set only ever
    /// grows within a run, and never holds a URL twice.
    pub fn mark_url_as_extracted(&mut self, url: String)
        requires
            old(self).inv(),
        ensures
            final(self).inv(),
            old(self)@.extracted_urls.contains(url@) ==> final(self)@ == old(self)@,
            !old(self)@.extracted_urls.contains(url@) ==> final(self)@ == (AIAgentV {
                extracted_urls: old(self)@.extracted_urls.push(url@),
                ..old(self)@
            }),
            final(self)@.extracted_urls.contains(url@),
            // the visited-extraction set is monotone
            forall|u: Seq<char>|
                old(self)@.extracted_urls.contains(u) ==> final(self)@.extracted_urls.contains(u),
    {
        if self.has_extracted_content_from_url(url.as_str()) {
            proof {
                assert(self@ =~~= old(self)@);
            }
            return ;
        }
        proof {
            assert((self.extracted_urls@ + seq![url]).map_values(|w: String| w.deep_view())
                =~= self@.extracted_urls + seq![url@]);
            assert(old(self)@.extracted_urls.push(url@) =~= old(self)@.extracted_urls + seq![
                url@,
            ]);
        }
        self.extracted_urls.push(url);
        proof {
            assert(self@ =~~= (AIAgentV {
                extracted_urls: old(self)@.extracted_urls.push(url@),
                ..old(self)@
            }));
            let m = self@.extracted_urls.len() - 1;
            assert(self@.extracted_urls[m] == url@);
            assert forall|u: Seq<char>|
                old(self)@.extracted_urls.contains(u) implies self@.extracted_urls.contains(
                u,
            ) by {
                let k = choose|k: int|
                    0 <= k < old(self)@.extracted_urls.len() && old(self)@.extracted_urls[k] == u;
                assert(self@.extracted_urls[k] == u);
            }
        }
    }

    /// The most recent narrative history entry, or the fallback where
    /// there is none yet.
    pub fn get_last_history_or(&self, fallback: &str) -> (r: String)
        ensures
            r@ == last_or(self@.history, fallback@),
    {
        let n = self.history.len();
        if n == 0 {
            fallback.to_owned()
        } else {
            proof {
                assert(self@.history[n - 1] == self.history@[n - 1]@);
            }
            self.history[n - 1].clone()
        }
    }

    /// The narrative history log of this run.
    pub fn history_entries(&self) -> (r: &Vec<String>)
        ensures
            r.deep_view() == self@.history,
    {
        &self.history
    }

    /// Append one narrative entry of the caller's own to the history
    /// log; the log only ever grows.
    pub fn add_task_to_history(&mut self, entry: String)
        requires
            old(self).inv(),
        ensures
            final(self).inv(),
            final(self)@ == (AIAgentV {
                history: old(self)@.history.push(entry@),
                ..old(self)@
            }),
            old(self)@.history.is_prefix_of(final(self)@.history),
    {
        let ghost entry_view = entry@;
        self.history.push(entry);
        proof {
            assert(self.history.deep_view() =~= old(self)@.history.push(entry_view));
            assert(self@ =~~= (AIAgentV {
                history: old(self)@.history.push(entry_view),
                ..old(self)@
            }));
        }
    }
}

/// The last entry of a history, or the fallback for an empty one.
pub open spec fn last_or(h: Seq<Seq<char>>, fallback: Seq<char>) -> Seq<char> {
    if h.len() == 0 {
        fallback
    } else {
        h.last()
    }
}

/// Whether another step may begin: the run is not over, the budget is
/// not exhausted, and a goal remains.
pub open spec fn can_step(a: AIAgentV) -> bool {
    &&& !a.run.terminated
    &&& a.run.current_step < a.run.max_steps
    &&& a.run.plan.len() > 0
}

/// The engine after a step was begun: only the counter moves.
pub open spec fn step_begun(a: AIAgentV) -> AIAgentV {
    AIAgentV {
        run: RunStateV { current_step: (a.run.current_step + 1) as u64, ..a.run },
        ..a
    }
}

impl AIAgent {
    /// Begin the next step: raises the step counter and hands out the
    /// current goal, or refuses when the run is over, the budget is
    /// spent, or no goal remains.
    pub fn begin_step(&mut self) -> (r: Option<String>)
        requires
            old(self).inv(),
        ensures
            final(self).inv(),
            can_step(old(self)@) ==> {
                &&& r is Some
                &&& r->0@ == old(self)@.run.plan[0]
                &&& final(self)@ == step_begun(old(self)@)
                // each begun step raises the counter by exactly one
                &&& final(self)@.run.current_step == old(self)@.run.current_step + 1
            },
            !can_step(old(self)@) ==> r is None && final(self)@ == old(self)@,
    {
        if self.run.terminated || self.run.current_step >= self.run.max_steps
            || self.run.plan.len() == 0 {
            proof {
                assert(self@ =~~= old(self)@);
            }
            return None;
        }
        self.run.current_step = self.run.current_step + 1;
        proof {
            assert(self@ =~~= step_begun(old(self)@));
            assert(self@.run.plan[0] == self.run.plan@[0]@);
        }
        Some(self.run.plan[0].clone())
    }
}

/// One narrative history entry: "Step N: " followed by the text.
pub open spec fn step_entry(step: u64, text: Seq<char>) -> Seq<char> {
    "Step "@ + dec_of(step as nat) + ": "@ + text
}

fn step_entry_exec(step: u64, text: &str) -> (r: String)
    ensures
        r@ == step_entry(step, text@),
{
    let mut s = String::from_str("Step ");
    let num = to_decimal(step);
    s.append(num.as_str());
    s.append(": ");
    s.append(text);
    s
}

/// The engine after the oracle's reply was logged: one narrative entry
/// more, nothing else moved.
pub open spec fn reply_logged(a: AIAgentV, reply: Seq<char>) -> AIAgentV {
    AIAgentV {
        history: a.history.push(
            step_entry(a.run.current_step, "Task Agent decided: "@ + reply),
        ),
        ..a
    }
}

/// The engine after a URL was remembered as extracted.
pub open spec fn mark_spec(a: AIAgentV, url: Seq<char>) -> AIAgentV {
    if a.extracted_urls.contains(url) {
        a
    } else {
        AIAgentV { extracted_urls: a.extracted_urls.push(url), ..a }
    }
}

/// The structured record one step leaves behind.
pub open spec fn record_of(a: AIAgentV, goal: Seq<char>, o: StepOutcomeV, ts: u64) -> TaskRecordV {
    TaskRecordV {
        step: a.run.current_step,
        action: goal,
        result: outcome_text(o),
        timestamp: ts,
    }
}

/// The engine after one step's outcome was applied, following the
/// classification of the step protocol:
/// a final answer ends the run; a done signal completes the goal, takes
/// the latest history entry as the answer and ends the run unless plan
/// steps remain; a recoverable condition only records its diagnostic and
/// keeps the goal; a fatal error ends the run with an error answer; any
/// other result marks the goal complete and the run goes on.
pub open spec fn conclude_spec(a: AIAgentV, goal: Seq<char>, o: StepOutcomeV, ts: u64) -> AIAgentV {
    match o {
        StepOutcomeV::Fatal(e) => AIAgentV {
            history: a.history.push(
                step_entry(a.run.current_step, "Critical error during execution: "@ + e),
            ),
            run: RunStateV {
                final_answer: Option::Some("Critical error during execution: "@ + e),
                terminated: true,
                ..a.run
            },
            ..a
        },
        _ => {
            let a1 = AIAgentV {
                task_history: a.task_history.push(record_of(a, goal, o, ts)),
                history: a.history.push(
                    step_entry(a.run.current_step, "Execution result: "@ + outcome_text(o)),
                ),
                ..a
            };
            match o {
                StepOutcomeV::Continue => AIAgentV {
                    run: RunStateV {
                        completed_tasks: a.run.completed_tasks.push(goal),
                        plan: if a.run.persistent {
                            a.run.plan
                        } else {
                            a.run.plan.drop_first()
                        },
                        ..a.run
                    },
                    ..a1
                },
                StepOutcomeV::GoalComplete => {
                    let plan2 = if a.run.persistent {
                        a.run.plan
                    } else {
                        a.run.plan.drop_first()
                    };
                    AIAgentV {
                        run: RunStateV {
                            completed_tasks: a.run.completed_tasks.push(goal),
                            plan: plan2,
                            final_answer: Option::Some(last_or(a1.history, "Task completed."@)),
                            terminated: a.run.persistent || plan2.len() == 0,
                            ..a.run
                        },
                        ..a1
                    }
                },
                StepOutcomeV::FinalAnswer(ans) => AIAgentV {
                    run: RunStateV {
                        completed_tasks: a.run.completed_tasks.push(goal),
                        final_answer: Option::Some(ans),
                        terminated: true,
                        ..a.run
                    },
                    ..a1
                },
                StepOutcomeV::Recoverable(why) => match why {
                    ReasonV::ReplyNotJson(reply) => AIAgentV {
                        history: a1.history.push(
                            step_entry(
                                a.run.current_step,
                                "Agent response was not valid JSON. Previous response: "@
                                    + reply,
                            ),
                        ),
                        ..a1
                    },
                    ReasonV::NoRecognizedAction => a1,
                    ReasonV::AlreadyExtracted => AIAgentV {
                        history: a1.history.push(
                            step_entry(
                                a.run.current_step,
                                "Content already extracted from current URL"@,
                            ),
                        ),
                        ..a1
                    },
                },
                StepOutcomeV::Fatal(_) => a1,
            }
        },
    }
}

/// The engine after an oracle failure, which is fatal to the run.
pub open spec fn oracle_error_spec(a: AIAgentV, err: Seq<char>) -> AIAgentV {
    AIAgentV {
        history: a.history.push(
            step_entry(a.run.current_step, "Error from Task Agent: "@ + err),
        ),
        run: RunStateV {
            final_answer: Option::Some("Error in task agent: "@ + err),
            terminated: true,
            ..a.run
        },
        ..a
    }
}

/// The engine after the closing report: a run that spent its budget
/// without an answer gets the reached-max-steps answer; either way the
/// run is over.
pub open spec fn report_state(a: AIAgentV) -> AIAgentV {
    if !a.run.terminated && a.run.current_step >= a.run.max_steps {
        AIAgentV {
            run: RunStateV {
                final_answer: Option::Some(
                    "Reached max steps. Last known state: "@ + last_or(a.history, "N/A"@),
                ),
                terminated: true,
                ..a.run
            },
            ..a
        }
    } else {
        AIAgentV { run: RunStateV { terminated: true, ..a.run }, ..a }
    }
}

/// The completed-tasks summary a run falls back to.
pub open spec fn summary_text(a: AIAgentV) -> Seq<char> {
    "Agent "@ + a.id + " completed "@ + dec_of(a.run.completed_tasks.len()) + " tasks"@
}

/// The answer the whole run reports: its final answer where one is
/// there and non-empty, else the completed-tasks summary.
pub open spec fn report_text(a: AIAgentV) -> Seq<char> {
    match report_state(a).run.final_answer {
        Option::Some(ans) => if ans.len() > 0 {
            ans
        } else {
            summary_text(a)
        },
        Option::None => summary_text(a),
    }
}

impl AIAgent {
    /// Log the oracle's reply and decide what this step asks for:
    /// a browser command to perform, or an already-resolved outcome.
    /// A request to extract content from a URL whose content this run
    /// already extracted resolves to the already-extracted signal
    /// without any browser work.
    pub fn handle_reply(&mut self, reply: &str, current_url: &str) -> (d: Directive)
        requires
            old(self).inv(),
        ensures
            final(self).inv(),
            final(self)@ == reply_logged(old(self)@, reply@),
            d@ == directive_spec(
                reply@,
                old(self)@.extracted_urls.contains(current_url@),
            ),
            // the narrative history is append-only
            old(self)@.history.is_prefix_of(final(self)@.history),
            // the visited-extraction set stands still here
            final(self)@.extracted_urls == old(self)@.extracted_urls,
    {
        let mut text = String::from_str("Task Agent decided: ");
        text.append(reply);
        let entry = step_entry_exec(self.run.current_step, text.as_str());
        let ghost entry_view = entry@;
        self.history.push(entry);
        proof {
            assert(self.history.deep_view() =~= old(self)@.history.push(entry_view));
            assert(self@ =~~= reply_logged(old(self)@, reply@));
        }
        let already = self.has_extracted_content_from_url(current_url);
        step_directive(reply, already)
    }

    /// Record a browser command's success. A completed content
    /// extraction puts the URL into the visited-extraction set; every
    /// command's success classifies as a plain continue.
    pub fn action_succeeded(&mut self, cmd: &BrowserCommand, current_url: &str) -> (o: StepOutcome)
        requires
            old(self).inv(),
        ensures
            final(self).inv(),
            o@ == StepOutcomeV::Continue,
            cmd@ == BrowserCommandV::ExtractContent ==> final(self)@ == mark_spec(
                old(self)@,
                current_url@,
            ) && final(self)@.extracted_urls.contains(current_url@),
            cmd@ != BrowserCommandV::ExtractContent ==> final(self)@ == old(self)@,
            // the visited-extraction set is monotone
            forall|u: Seq<char>|
                old(self)@.extracted_urls.contains(u) ==> final(self)@.extracted_urls.contains(u),
    {
        match cmd {
            BrowserCommand::ExtractContent => {
                self.mark_url_as_extracted(current_url.to_owned());
            },
            _ => {
                proof {
                    assert(self@ =~~= old(self)@);
                }
            },
        }
        StepOutcome::Continue
    }

    /// Apply one step's classified outcome to the run state.
    pub fn conclude_step(&mut self, goal: &str, outcome: StepOutcome, timestamp: u64)
        requires
            old(self).inv(),
            old(self)@.run.plan.len() > 0,
        ensures
            final(self).inv(),
            final(self)@ == conclude_spec(old(self)@, goal@, outcome@, timestamp),
            // histories are append-only
            old(self)@.history.is_prefix_of(final(self)@.history),
            old(self)@.task_history.is_prefix_of(final(self)@.task_history),
            // the visited-extraction set is monotone
            forall|u: Seq<char>|
                old(self)@.extracted_urls.contains(u) ==> final(self)@.extracted_urls.contains(u),
            // the step counter and the budget stand still
            final(self)@.run.current_step == old(self)@.run.current_step,
            final(self)@.run.max_steps == old(self)@.run.max_steps,
    {
        let ghost a = old(self)@;
        if let StepOutcome::Fatal(e) = outcome {
            let mut msg = String::from_str("Critical error during execution: ");
            msg.append(e.as_str());
            let entry = step_entry_exec(self.run.current_step, msg.as_str());
            let ghost entry_view = entry@;
            self.history.push(entry);
            self.run.final_answer = Some(msg);
            self.run.terminated = true;
            proof {
                assert(self.history.deep_view() =~= a.history.push(entry_view));
                assert(self@ =~~= conclude_spec(a, goal@, outcome@, timestamp));
            }
            return ;
        }
        let result_text = outcome.describe();
        let rec = TaskRecord {
            step: self.run.current_step,
            action: goal.to_owned(),
            result: result_text.clone(),
            timestamp,
        };
        let ghost rec_view = rec@;
        self.task_history.push(rec);
        let mut t = String::from_str("Execution result: ");
        t.append(result_text.as_str());
        let entry = step_entry_exec(self.run.current_step, t.as_str());
        let ghost entry_view = entry@;
        self.history.push(entry);
        proof {
            assert(self.task_history.deep_view() =~= a.task_history.push(rec_view));
            assert(self.history.deep_view() =~= a.history.push(entry_view));
        }
        match outcome {
            StepOutcome::Continue => {
                self.run.completed_tasks.push(goal.to_owned());
                if !self.run.persistent {
                    self.run.plan.remove(0);
                }
                proof {
                    assert(self.run.completed_tasks.deep_view() =~= a.run.completed_tasks.push(
                        goal@,
                    ));
                    if !a.run.persistent {
                        assert(self.run.plan.deep_view() =~= a.run.plan.drop_first());
                    }
                    assert(self@ =~~= conclude_spec(a, goal@, outcome@, timestamp));
                }
            },
            StepOutcome::GoalComplete => {
                let answer = self.get_last_history_or("Task completed.");
                self.run.final_answer = Some(answer);
                self.run.completed_tasks.push(goal.to_owned());
                if !self.run.persistent {
                    self.run.plan.remove(0);
                }
                self.run.terminated = self.run.persistent || self.run.plan.len() == 0;
                proof {
                    assert(self.run.completed_tasks.deep_view() =~= a.run.completed_tasks.push(
                        goal@,
                    ));
                    if !a.run.persistent {
                        assert(self.run.plan.deep_view() =~= a.run.plan.drop_first());
                    }
                    assert(self@ =~~= conclude_spec(a, goal@, outcome@, timestamp));
                }
            },
            StepOutcome::FinalAnswer(ans) => {
                self.run.completed_tasks.push(goal.to_owned());
                self.run.final_answer = Some(ans);
                self.run.terminated = true;
                proof {
                    assert(self.run.completed_tasks.deep_view() =~= a.run.completed_tasks.push(
                        goal@,
                    ));
                    assert(self@ =~~= conclude_spec(a, goal@, outcome@, timestamp));
                }
            },
            StepOutcome::Recoverable(why) => {
                match why {
                    Reason::ReplyNotJson(reply) => {
                        let mut d = String::from_str(
                            "Agent response was not valid JSON. Previous response: ",
                        );
                        d.append(reply.as_str());
                        let diag = step_entry_exec(self.run.current_step, d.as_str());
                        let ghost diag_view = diag@;
                        let ghost h1 = self.history.deep_view();
                        self.history.push(diag);
                        proof {
                            assert(self.history.deep_view() =~= h1.push(diag_view));
                            assert(self@ =~~= conclude_spec(a, goal@, outcome@, timestamp));
                        }
                    },
                    Reason::NoRecognizedAction => {
                        proof {
                            assert(self@ =~~= conclude_spec(a, goal@, outcome@, timestamp));
                        }
                    },
                    Reason::AlreadyExtracted => {
                        let diag = step_entry_exec(
                            self.run.current_step,
                            "Content already extracted from current URL",
                        );
                        let ghost diag_view = diag@;
                        let ghost h1 = self.history.deep_view();
                        self.history.push(diag);
                        proof {
                            assert(self.history.deep_view() =~= h1.push(diag_view));
                            assert(self@ =~~= conclude_spec(a, goal@, outcome@, timestamp));
                        }
                    },
                }
            },
            StepOutcome::Fatal(_) => {
                proof {
                    assert(false);
                }
            },
        }
    }

    /// Record that the decision oracle itself failed: fatal to the run.
    pub fn on_oracle_error(&mut self, err: &str)
        requires
            old(self).inv(),
        ensures
            final(self).inv(),
            final(self)@ == oracle_error_spec(old(self)@, err@),
            old(self)@.history.is_prefix_of(final(self)@.history),
    {
        let mut text = String::from_str("Error from Task Agent: ");
        text.append(err);
        let entry = step_entry_exec(self.run.current_step, text.as_str());
        let ghost entry_view = entry@;
        self.history.push(entry);
        let mut answer = String::from_str("Error in task agent: ");
        answer.append(err);
        self.run.final_answer = Some(answer);
        self.run.terminated = true;
        proof {
            assert(self.history.deep_view() =~= old(self)@.history.push(entry_view));
            assert(self@ =~~= oracle_error_spec(old(self)@, err@));
        }
    }

    /// Close the run and hand out the answer it reports: the final
    /// answer where one is there, the reached-max-steps answer where the
    /// budget ran out without one, else the completed-tasks summary.
    pub fn final_report(&mut self) -> (r: String)
        requires
            old(self).inv(),
        ensures
            final(self).inv(),
            final(self)@ == report_state(old(self)@),
            r@ == report_text(old(self)@),
            old(self)@.history.is_prefix_of(final(self)@.history),
    {
        let ghost a = old(self)@;
        if !self.run.terminated && self.run.current_step >= self.run.max_steps {
            let mut msg = String::from_str("Reached max steps. Last known state: ");
            let last = self.get_last_history_or("N/A");
            msg.append(last.as_str());
            self.run.final_answer = Some(msg);
        }
        self.run.terminated = true;
        proof {
            assert(self@ =~~= report_state(a));
        }
        let answer = match &self.run.final_answer {
            Some(ans) => {
                if !ans.as_str().is_empty() {
                    Some(ans.clone())
                } else {
                    None
                }
            },
            None => None,
        };
        match answer {
            Some(ans) => ans,
            None => {
                let mut s = String::from_str("Agent ");
                s.append(self.id.as_str());
                s.append(" completed ");
                let num = to_decimal(self.run.completed_tasks.len() as u64);
                s.append(num.as_str());
                s.append(" tasks");
                proof {
                    assert(s@ =~= summary_text(a));
                }
                s
            },
        }
    }
}

/// The last `k` entries of a history, or all of it where it is shorter.
pub open spec fn last_k(h: Seq<Seq<char>>, k: int) -> Seq<Seq<char>> {
    if h.len() <= k {
        h
    } else {
        h.subrange(h.len() - k, h.len() as int)
    }
}

/// What the prompt says about recent history: the most recent five
/// entries, or a placeholder where nothing happened yet.
pub open spec fn history_excerpt_spec(h: Seq<Seq<char>>) -> Seq<char> {
    if h.len() == 0 {
        "No previous actions taken."@
    } else {
        "Task History (most recent last):\n"@ + join_with(last_k(h, 5), "\n"@)
    }
}

/// What the prompt says about already-extracted URLs.
pub open spec fn extracted_info_spec(urls: Seq<Seq<char>>) -> Seq<char> {
    if urls.len() == 0 {
        "No URLs have had their content extracted yet."@
    } else {
        "URLs that have already had their content extracted:\n"@ + join_with(urls, "\n"@)
    }
}

/// The warning the prompt carries when the current URL was already
/// extracted.
pub open spec fn url_status_spec(already: bool) -> Seq<char> {
    if already {
        "\n\nIMPORTANT: Content has already been extracted from the current URL. Consider taking a different action instead of extracting content again."@
    } else {
        Seq::empty()
    }
}

/// What the prompt says about the latest screenshot.
pub open spec fn screenshot_info_spec(shot: Option<Seq<char>>) -> Seq<char> {
    match shot {
        Option::Some(b) => "\nScreenshot (base64):\n"@ + b,
        Option::None => Seq::empty(),
    }
}

/// The whole per-step oracle prompt.
pub open spec fn gen_prompt_spec(
    a: AIAgentV,
    high_level_plan: Seq<char>,
    current_url: Seq<char>,
    task_history: Seq<char>,
    interactive_elements: Seq<char>,
) -> Seq<char> {
    "Agent Role: "@ + a.role + "\nAgent Backstory: "@ + a.backstory + "\nAgent Goal: "@ + a.goal
        + "\nAgent Tools: "@ + a.tools + "\nContext: "@ + a.context
        + "\n\nHere is the current task to accomplish:\n"@ + high_level_plan
        + "\n\nHere is the current URL:\n"@ + current_url + "\n\nHere is the task history:\n"@
        + task_history + "\n\nHere are the interactive elements on the page:\n"@
        + interactive_elements + "\n\n"@ + extracted_info_spec(a.extracted_urls) + "\n"@
        + url_status_spec(a.extracted_urls.contains(current_url)) + "\n"@ + screenshot_info_spec(
        a.last_screenshot,
    )
        + "\n\nBased on your role, goal, and the current task, determine the next action to take. Use the available tools and context to make the best decision. Output your decision in the JSON format specified."@
}

impl AIAgent {
    /// The recent-history part of the prompt: the most recent five
    /// narrative entries.
    pub fn history_excerpt(&self) -> (r: String)
        ensures
            r@ == history_excerpt_spec(self@.history),
    {
        let n = self.history.len();
        if n == 0 {
            return String::from_str("No previous actions taken.");
        }
        let start = if n > 5 {
            n - 5
        } else {
            0
        };
        let mut tail: Vec<String> = Vec::new();
        let mut i: usize = start;
        proof {
            assert(tail.deep_view() =~= self@.history.subrange(start as int, start as int));
        }
        while i < n
            invariant
                start <= i <= n,
                n == self.history@.len(),
                tail.deep_view() == self@.history.subrange(start as int, i as int),
            decreases n - i,
        {
            let entry = self.history[i].clone();
            proof {
                assert(entry@ == self@.history[i as int]);
                assert(self@.history.subrange(start as int, i + 1) =~= self@.history.subrange(
                    start as int,
                    i as int,
                ).push(entry@));
                assert((tail@ + seq![entry]).map_values(|w: String| w.deep_view())
                    =~= tail.deep_view() + seq![entry@]);
                assert(tail.deep_view().push(entry@) =~= tail.deep_view() + seq![entry@]);
            }
            tail.push(entry);
            i = i + 1;
        }
        let joined = crate::textutil::join_strings(&tail, "\n");
        let mut s = String::from_str("Task History (most recent last):\n");
        s.append(joined.as_str());
        proof {
            assert(tail@.map_values(|w: String| w@) =~= tail.deep_view());
            assert(last_k(self@.history, 5) =~= self@.history.subrange(
                start as int,
                n as int,
            ));
            assert(s@ =~= history_excerpt_spec(self@.history));
        }
        s
    }

    /// Assemble the per-step prompt for the decision oracle.
    pub fn gen_prompt(
        &self,
        high_level_plan: String,
        current_url: String,
        task_history: String,
        interactive_elements: String,
    ) -> (r: String)
        ensures
            r@ == gen_prompt_spec(
                self@,
                high_level_plan@,
                current_url@,
                task_history@,
                interactive_elements@,
            ),
    {
        let extracted_info = if self.extracted_urls.len() == 0 {
            String::from_str("No URLs have had their content extracted yet.")
        } else {
            let joined = crate::textutil::join_strings(&self.extracted_urls, "\n");
            let mut e = String::from_str("URLs that have already had their content extracted:\n");
            e.append(joined.as_str());
            proof {
                assert(self.extracted_urls@.map_values(|w: String| w@)
                    =~= self@.extracted_urls);
            }
            e
        };
        proof {
            assert(extracted_info@ == extracted_info_spec(self@.extracted_urls));
        }
        let already = self.has_extracted_content_from_url(current_url.as_str());
        let status = if already {
            String::from_str(
                "\n\nIMPORTANT: Content has already been extracted from the current URL. Consider taking a different action instead of extracting content again.",
            )
        } else {
            String::new()
        };
        let shot = match &self.last_screenshot {
            Some(b64) => {
                let mut p = String::from_str("\nScreenshot (base64):\n");
                p.append(b64.as_str());
                p
            },
            None => String::new(),
        };
        proof {
            assert(status@ == url_status_spec(self@.extracted_urls.contains(current_url@)));
            assert(shot@ == screenshot_info_spec(self@.last_screenshot));
        }
        let mut s = String::from_str("Agent Role: ");
        s.append(self.role.as_str());
        s.append("\nAgent Backstory: ");
        s.append(self.backstory.as_str());
        s.append("\nAgent Goal: ");
        s.append(self.goal.as_str());
        s.append("\nAgent Tools: ");
        s.append(self.tools.as_str());
        s.append("\nContext: ");
        s.append(self.context.as_str());
        s.append("\n\nHere is the current task to accomplish:\n");
        s.append(high_level_plan.as_str());
        s.append("\n\nHere is the current URL:\n");
        s.append(current_url.as_str());
        s.append("\n\nHere is the task history:\n");
        s.append(task_history.as_str());
        s.append("\n\nHere are the interactive elements on the page:\n");
        s.append(interactive_elements.as_str());
        s.append("\n\n");
        s.append(extracted_info.as_str());
        s.append("\n");
        s.append(status.as_str());
        s.append("\n");
        s.append(shot.as_str());
        s.append(
            "\n\nBased on your role, goal, and the current task, determine the next action to take. Use the available tools and context to make the best decision. Output your decision in the JSON format specified.",
        );
        proof {
            assert(s@ =~= gen_prompt_spec(
                self@,
                high_level_plan@,
                current_url@,
                task_history@,
                interactive_elements@,
            ));
        }
        s
    }
}

/// Law (extraction dedup): in any engine state whose visited-extraction
/// set holds the current URL, a reply that asks to extract content again
/// resolves to the already-extracted signal, and no browser command is
/// issued. Since every transition only grows that set — see the
/// monotonicity clauses of `mark_url_as_extracted`, `action_succeeded`
/// and `conclude_step` — this holds at every later step of the run too.
pub proof fn lemma_extraction_dedup(a: AIAgentV, reply: Seq<char>, url: Seq<char>)
    requires
        a.extracted_urls.contains(url),
        decode_spec(reply) == DecodedV::Act(ActionV::ExtractContent),
    ensures
        directive_spec(reply, a.extracted_urls.contains(url)) == DirectiveV::Resolved(
            StepOutcomeV::Recoverable(ReasonV::AlreadyExtracted),
        ),
{
}

/// Law (bounded termination): each begun step raises the step counter
/// by exactly one, the counter never passes the budget, and once it
/// reaches the budget no further step can begin. A run therefore takes
/// at most `max_steps` steps, whatever the oracle replies — concluding
/// a step never touches the counter or the budget.
pub proof fn lemma_step_budget(a: AIAgentV)
    requires
        inv_v(a),
    ensures
        can_step(a) ==> step_begun(a).run.current_step == a.run.current_step + 1,
        can_step(a) ==> inv_v(step_begun(a)),
        a.run.current_step >= a.run.max_steps ==> !can_step(a),
{
}

/// Law (history append-only): applying any step outcome leaves the
/// prior narrative history entries in place and only appends.
pub proof fn lemma_history_append_only(
    a: AIAgentV,
    goal: Seq<char>,
    o: StepOutcomeV,
    ts: u64,
    reply: Seq<char>,
)
    ensures
        a.history.is_prefix_of(conclude_spec(a, goal, o, ts).history),
        a.history.is_prefix_of(reply_logged(a, reply).history),
        conclude_spec(a, goal, o, ts).history.len() >= a.history.len(),
{
}

/// Law (step frame): one whole step — the reply logged, then its
/// outcome applied — never removes a URL from the visited-extraction
/// set, never mutates an existing history record, and never touches
/// the step counter or the budget.
pub proof fn lemma_step_frame(
    a: AIAgentV,
    reply: Seq<char>,
    goal: Seq<char>,
    o: StepOutcomeV,
    ts: u64,
)
    ensures
        ({
            let b = conclude_spec(reply_logged(a, reply), goal, o, ts);
            &&& forall|u: Seq<char>|
                a.extracted_urls.contains(u) ==> b.extracted_urls.contains(u)
            &&& a.history.is_prefix_of(b.history)
            &&& a.task_history.is_prefix_of(b.task_history)
            &&& b.run.current_step == a.run.current_step
            &&& b.run.max_steps == a.run.max_steps
        }),
{
}

} // verus!
