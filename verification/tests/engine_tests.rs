use project_oculus::agent::AIAgent;
use project_oculus::executor::{BrowserCommand, Directive, Reason, StepOutcome};

fn fresh_agent(goal: &str) -> AIAgent {
    AIAgent::new(
        String::from("agent1"),
        String::from(goal),
        String::from("a test agent"),
        String::from("browser"),
        String::from("WebAgent"),
        String::from("born yesterday"),
        String::from(""),
    )
}

#[test]
fn scenario_navigate_continues() {
    let mut eng = fresh_agent("find the answer");
    let goal = eng.begin_step().expect("a step should begin");
    assert_eq!(goal, "find the answer");
    let d = eng.handle_reply(
        "{\"next_action\":{\"go_to_url\":{\"url\":\"https://example.com\"}}}",
        "about:blank",
    );
    let cmd = match d {
        Directive::Perform(cmd) => cmd,
        Directive::Resolved(_) => panic!("expected a browser command"),
    };
    match &cmd {
        BrowserCommand::GoToUrl(u) => assert_eq!(u, "https://example.com"),
        _ => panic!("expected navigation"),
    }
    let outcome = eng.action_succeeded(&cmd, "https://example.com");
    assert!(matches!(outcome, StepOutcome::Continue));
    eng.conclude_step(&goal, outcome, 1);
    // the run goes on, and the single persistent goal stays current
    assert!(!eng.run.terminated);
    let next = eng.begin_step().expect("the loop should proceed");
    assert_eq!(next, "find the answer");
}

#[test]
fn scenario_final_answer_terminates() {
    let mut eng = fresh_agent("find the answer");
    let goal = eng.begin_step().unwrap();
    let d = eng.handle_reply(
        "{\"next_action\":{\"final_answer\":{\"answer\":\"42\"}}}",
        "about:blank",
    );
    let outcome = match d {
        Directive::Resolved(o) => o,
        Directive::Perform(_) => panic!("a final answer needs no browser work"),
    };
    match &outcome {
        StepOutcome::FinalAnswer(a) => assert_eq!(a, "42"),
        _ => panic!("expected a final answer"),
    }
    eng.conclude_step(&goal, outcome, 2);
    assert!(eng.run.terminated);
    assert!(eng.begin_step().is_none());
    let answer = eng.final_report();
    assert_eq!(answer, "42");
}

#[test]
fn scenario_invalid_json_is_recoverable() {
    let mut eng = fresh_agent("find the answer");
    let goal = eng.begin_step().unwrap();
    let before = eng.history_entries().len();
    let d = eng.handle_reply("not json", "about:blank");
    let outcome = match d {
        Directive::Resolved(o) => o,
        Directive::Perform(_) => panic!("unparseable text must not reach the browser"),
    };
    assert!(matches!(&outcome, StepOutcome::Recoverable(Reason::ReplyNotJson(r)) if r == "not json"));
    eng.conclude_step(&goal, outcome, 3);
    // one entry for the reply, one for the result, one diagnostic
    assert_eq!(eng.history_entries().len(), before + 3);
    assert_eq!(
        eng.history_entries().last().unwrap(),
        "Step 1: Agent response was not valid JSON. Previous response: not json"
    );
    // the run is not over: the loop proceeds to the next step
    assert!(!eng.run.terminated);
    assert!(eng.begin_step().is_some());
    assert_eq!(eng.run.current_step, 2);
}

#[test]
fn scenario_extraction_dedup_short_circuits() {
    let mut eng = fresh_agent("read the page");
    let goal = eng.begin_step().unwrap();
    // first extraction goes to the browser and succeeds
    let d = eng.handle_reply(
        "{\"next_action\":{\"extract_content\":{}}}",
        "https://example.com/a",
    );
    let cmd = match d {
        Directive::Perform(cmd) => cmd,
        Directive::Resolved(_) => panic!("the first extraction must reach the browser"),
    };
    assert!(matches!(cmd, BrowserCommand::ExtractContent));
    let outcome = eng.action_succeeded(&cmd, "https://example.com/a");
    eng.conclude_step(&goal, outcome, 4);
    assert!(eng.has_extracted_content_from_url("https://example.com/a"));
    // the same request on the same URL now resolves without the browser
    let goal = eng.begin_step().unwrap();
    let d = eng.handle_reply(
        "{\"next_action\":{\"extract_content\":{}}}",
        "https://example.com/a",
    );
    let outcome = match d {
        Directive::Resolved(o) => o,
        Directive::Perform(_) => panic!("no browser call may be made for a visited URL"),
    };
    assert!(matches!(outcome, StepOutcome::Recoverable(Reason::AlreadyExtracted)));
    eng.conclude_step(&goal, outcome, 5);
    assert!(!eng.run.terminated);
    assert_eq!(
        eng.history_entries().last().unwrap(),
        "Step 2: Content already extracted from current URL"
    );
    // a different URL still reaches the browser
    let _goal = eng.begin_step().unwrap();
    let d = eng.handle_reply(
        "{\"next_action\":{\"extract_content\":{}}}",
        "https://example.com/b",
    );
    assert!(matches!(d, Directive::Perform(BrowserCommand::ExtractContent)));
}

#[test]
fn scenario_max_steps_bounds_the_run() {
    let mut eng = fresh_agent("never finish");
    eng.set_max_steps(3);
    let mut steps = 0;
    while let Some(goal) = eng.begin_step() {
        let d = eng.handle_reply("{\"next_action\":{\"dance\":{}}}", "about:blank");
        let outcome = match d {
            Directive::Resolved(o) => o,
            Directive::Perform(_) => panic!("an unrecognized action must not reach the browser"),
        };
        assert!(matches!(outcome, StepOutcome::Recoverable(Reason::NoRecognizedAction)));
        eng.conclude_step(&goal, outcome, 6);
        steps += 1;
        assert!(steps <= 3);
    }
    assert_eq!(steps, 3);
    let answer = eng.final_report();
    assert!(answer.starts_with("Reached max steps. Last known state: "));
    assert_eq!(
        answer,
        format!(
            "Reached max steps. Last known state: {}",
            eng.history_entries().last().unwrap()
        )
    );
}

#[test]
fn done_reply_with_answer_ends_the_run() {
    let mut eng = fresh_agent("quick task");
    let goal = eng.begin_step().unwrap();
    let d = eng.handle_reply(
        "{\"done\": true, \"final_answer\": \"all set\", \"next_action\":{\"go_to_url\":{\"url\":\"x\"}}}",
        "about:blank",
    );
    let outcome = match d {
        Directive::Resolved(o) => o,
        Directive::Perform(_) => panic!("a done reply needs no browser work"),
    };
    assert!(matches!(&outcome, StepOutcome::FinalAnswer(a) if a == "all set"));
    eng.conclude_step(&goal, outcome, 7);
    assert_eq!(eng.final_report(), "all set");
}

#[test]
fn done_action_takes_last_history_entry_as_answer() {
    let mut eng = fresh_agent("one goal");
    let goal = eng.begin_step().unwrap();
    let d = eng.handle_reply("{\"next_action\":{\"done\":{}}}", "about:blank");
    let outcome = match d {
        Directive::Resolved(o) => o,
        Directive::Perform(_) => panic!("done needs no browser work"),
    };
    assert!(matches!(outcome, StepOutcome::GoalComplete));
    eng.conclude_step(&goal, outcome, 8);
    assert!(eng.run.terminated);
    // the answer is the freshest history entry: the recorded result
    assert_eq!(eng.final_report(), "Step 1: Execution result: AGENT_DONE");
}

#[test]
fn stop_action_with_answer() {
    let mut eng = fresh_agent("one goal");
    let _goal = eng.begin_step().unwrap();
    let d = eng.handle_reply(
        "{\"next_action\":{\"stop\":{\"final_answer\":\"over\"}}}",
        "about:blank",
    );
    assert!(matches!(d, Directive::Resolved(StepOutcome::FinalAnswer(a)) if a == "over"));
}

#[test]
fn oracle_failure_is_fatal() {
    let mut eng = fresh_agent("anything");
    let _goal = eng.begin_step().unwrap();
    eng.on_oracle_error("connection refused");
    assert!(eng.run.terminated);
    assert_eq!(
        eng.history_entries().last().unwrap(),
        "Step 1: Error from Task Agent: connection refused"
    );
    assert_eq!(eng.final_report(), "Error in task agent: connection refused");
}

#[test]
fn dispatch_failure_is_fatal() {
    let mut eng = fresh_agent("anything");
    let goal = eng.begin_step().unwrap();
    let _ = eng.handle_reply(
        "{\"next_action\":{\"click_element\":{\"selector\":\"#gone\"}}}",
        "about:blank",
    );
    eng.conclude_step(&goal, StepOutcome::Fatal(String::from("no such element")), 9);
    assert!(eng.run.terminated);
    assert_eq!(
        eng.final_report(),
        "Critical error during execution: no such element"
    );
}

#[test]
fn multi_line_goal_becomes_a_plan() {
    let eng = fresh_agent("  first step \nsecond step\n\n third step ");
    assert_eq!(eng.run.plan.len(), 3);
    assert_eq!(eng.run.plan[0], "first step");
    assert_eq!(eng.run.plan[1], "second step");
    assert_eq!(eng.run.plan[2], "third step");
    assert!(!eng.run.persistent);
}

#[test]
fn single_line_goal_is_persistent_and_kept_whole() {
    let eng = fresh_agent("  just one thing  ");
    assert_eq!(eng.run.plan.len(), 1);
    // a single-line plan keeps the goal exactly as given
    assert_eq!(eng.run.plan[0], "  just one thing  ");
    assert!(eng.run.persistent);
}

#[test]
fn continue_advances_a_multi_goal_plan() {
    let mut eng = fresh_agent("go somewhere\nread something");
    let goal = eng.begin_step().unwrap();
    assert_eq!(goal, "go somewhere");
    let d = eng.handle_reply(
        "{\"next_action\":{\"go_to_url\":{\"url\":\"https://example.com\"}}}",
        "about:blank",
    );
    let cmd = match d {
        Directive::Perform(cmd) => cmd,
        Directive::Resolved(_) => panic!("expected a browser command"),
    };
    let outcome = eng.action_succeeded(&cmd, "https://example.com");
    eng.conclude_step(&goal, outcome, 10);
    assert_eq!(eng.run.completed_tasks, vec![String::from("go somewhere")]);
    let next = eng.begin_step().unwrap();
    assert_eq!(next, "read something");
}

#[test]
fn history_is_append_only() {
    let mut eng = fresh_agent("watch history");
    let goal = eng.begin_step().unwrap();
    let _ = eng.handle_reply("not json", "about:blank");
    let snapshot: Vec<String> = eng.history_entries().clone();
    let d = eng.handle_reply("{\"next_action\":{\"go_back\":{}}}", "about:blank");
    let cmd = match d {
        Directive::Perform(cmd) => cmd,
        Directive::Resolved(_) => panic!("go_back reaches the browser"),
    };
    let outcome = eng.action_succeeded(&cmd, "about:blank");
    eng.conclude_step(&goal, outcome, 11);
    let after = eng.history_entries();
    assert!(after.len() >= snapshot.len());
    for (i, entry) in snapshot.iter().enumerate() {
        assert_eq!(&after[i], entry);
    }
}

#[test]
fn task_records_carry_step_goal_result_and_timestamp() {
    let mut eng = fresh_agent("record me");
    let goal = eng.begin_step().unwrap();
    let d = eng.handle_reply(
        "{\"next_action\":{\"search_query\":{\"query\":\"verus\"}}}",
        "about:blank",
    );
    let cmd = match d {
        Directive::Perform(cmd) => cmd,
        Directive::Resolved(_) => panic!("a search reaches the browser"),
    };
    assert!(matches!(&cmd, BrowserCommand::SearchQuery(q) if q == "verus"));
    let outcome = eng.action_succeeded(&cmd, "about:blank");
    eng.conclude_step(&goal, outcome, 777);
    let records = eng.get_task_history();
    assert_eq!(records.len(), 1);
    assert_eq!(records[0].step, 1);
    assert_eq!(records[0].action, "record me");
    assert_eq!(records[0].result, "CONTINUE");
    assert_eq!(records[0].timestamp, 777);
    let mut eng2 = eng;
    eng2.clear_task_history();
    assert!(eng2.get_task_history().is_empty());
}

#[test]
fn empty_final_answer_falls_back_to_summary() {
    let mut eng = fresh_agent("count my work");
    let goal = eng.begin_step().unwrap();
    let d = eng.handle_reply(
        "{\"next_action\":{\"final_answer\":{\"answer\":\"\"}}}",
        "about:blank",
    );
    let outcome = match d {
        Directive::Resolved(o) => o,
        Directive::Perform(_) => panic!("a final answer needs no browser work"),
    };
    eng.conclude_step(&goal, outcome, 12);
    assert_eq!(eng.final_report(), "Agent agent1 completed 1 tasks");
}

#[test]
fn history_excerpt_shows_the_last_five() {
    let mut eng = fresh_agent("lots of steps");
    assert_eq!(eng.history_excerpt(), "No previous actions taken.");
    for i in 0..6 {
        let goal = eng.begin_step().unwrap();
        let reply = format!("{{\"next_action\":{{\"mystery{}\":{{}}}}}}", i);
        let d = eng.handle_reply(&reply, "about:blank");
        let outcome = match d {
            Directive::Resolved(o) => o,
            Directive::Perform(_) => panic!("unrecognized actions stay away from the browser"),
        };
        eng.conclude_step(&goal, outcome, i);
    }
    let excerpt = eng.history_excerpt();
    assert!(excerpt.starts_with("Task History (most recent last):\n"));
    let body = excerpt.strip_prefix("Task History (most recent last):\n").unwrap();
    let lines: Vec<&str> = body.split('\n').collect();
    assert_eq!(lines.len(), 5);
    let all = eng.history_entries();
    assert_eq!(lines[4], all.last().unwrap());
    assert_eq!(lines[0], &all[all.len() - 5]);
}

#[test]
fn gen_prompt_embeds_state_verbatim() {
    let mut eng = fresh_agent("the goal");
    eng.mark_url_as_extracted(String::from("https://seen.example"));
    let prompt = eng.gen_prompt(
        String::from("the goal"),
        String::from("https://seen.example"),
        String::from("HIST"),
        String::from("ELEMS"),
    );
    let expected = "Agent Role: WebAgent\nAgent Backstory: born yesterday\nAgent Goal: the goal\nAgent Tools: browser\nContext: \n\nHere is the current task to accomplish:\nthe goal\n\nHere is the current URL:\nhttps://seen.example\n\nHere is the task history:\nHIST\n\nHere are the interactive elements on the page:\nELEMS\n\nURLs that have already had their content extracted:\nhttps://seen.example\n\n\nIMPORTANT: Content has already been extracted from the current URL. Consider taking a different action instead of extracting content again.\n\n\nBased on your role, goal, and the current task, determine the next action to take. Use the available tools and context to make the best decision. Output your decision in the JSON format specified.";
    assert_eq!(prompt, expected);
}

#[test]
fn empty_goal_yields_no_steps_and_a_summary() {
    let mut eng = fresh_agent("   \n \n");
    assert!(eng.run.plan.is_empty());
    assert!(!eng.run.persistent);
    assert!(eng.begin_step().is_none());
    assert_eq!(eng.final_report(), "Agent agent1 completed 0 tasks");
}

#[test]
fn visited_set_holds_no_duplicates() {
    let mut eng = fresh_agent("dedup");
    eng.mark_url_as_extracted(String::from("https://a.example"));
    eng.mark_url_as_extracted(String::from("https://a.example"));
    eng.mark_url_as_extracted(String::from("https://b.example"));
    assert_eq!(eng.extracted_urls.len(), 2);
    assert!(eng.has_extracted_content_from_url("https://a.example"));
    assert!(eng.has_extracted_content_from_url("https://b.example"));
    assert!(!eng.has_extracted_content_from_url("https://c.example"));
}
