use project_oculus::executor::{
    decode_reply, step_directive, Action, BrowserCommand, Decoded, Directive, Reason,
    StepOutcome,
};

#[test]
fn invalid_and_empty_replies_are_told_apart() {
    assert!(matches!(decode_reply("not json"), Decoded::ReplyNotJson));
    // a parseable reply without a next_action field is a different failure
    assert!(matches!(decode_reply("{}"), Decoded::NoAction));
    assert!(matches!(decode_reply("{\"other\": 1}"), Decoded::NoAction));
}

#[test]
fn done_flag_is_read_before_any_action() {
    match decode_reply("{\"done\": true, \"final_answer\": \"x\"}") {
        Decoded::DoneReply(Some(a)) => assert_eq!(a, "x"),
        _ => panic!("expected a done reply with its answer"),
    }
    assert!(matches!(
        decode_reply("{\"done\": true}"),
        Decoded::DoneReply(None)
    ));
    // done: false does not end anything
    assert!(matches!(
        decode_reply("{\"done\": false, \"next_action\": {\"go_back\": {}}}"),
        Decoded::Act(Action::GoBack)
    ));
}

#[test]
fn each_action_key_is_recognized() {
    let act = |t: &str| match decode_reply(t) {
        Decoded::Act(a) => a,
        _ => panic!("expected an action"),
    };
    assert!(matches!(
        act("{\"next_action\": {\"search_query\": {\"query\": \"q\"}}}"),
        Action::SearchQuery(Some(q)) if q == "q"
    ));
    assert!(matches!(
        act("{\"next_action\": {\"go_to_url\": {\"url\": \"u\"}}}"),
        Action::GoToUrl(Some(u)) if u == "u"
    ));
    assert!(matches!(
        act("{\"next_action\": {\"extract_content\": {}}}"),
        Action::ExtractContent
    ));
    assert!(matches!(
        act("{\"next_action\": {\"extract_information\": {}}}"),
        Action::ExtractInformation
    ));
    assert!(matches!(
        act("{\"next_action\": {\"click_element\": {\"selector\": \"#b\"}}}"),
        Action::ClickElement(Some(s)) if s == "#b"
    ));
    assert!(matches!(
        act("{\"next_action\": {\"go_back\": {}}}"),
        Action::GoBack
    ));
    assert!(matches!(
        act("{\"next_action\": {\"done\": {}}}"),
        Action::Done
    ));
    assert!(matches!(
        act("{\"next_action\": {\"stop\": {}}}"),
        Action::Stop(None)
    ));
    assert!(matches!(
        act("{\"next_action\": {\"someday\": {}}}"),
        Action::Unrecognized
    ));
}

#[test]
fn missing_parameters_degrade_to_a_no_op() {
    // the action key is recognized, but its parameter is missing or mistyped
    assert!(matches!(
        decode_reply("{\"next_action\": {\"go_to_url\": {}}}"),
        Decoded::Act(Action::GoToUrl(None))
    ));
    assert!(matches!(
        decode_reply("{\"next_action\": {\"go_to_url\": {\"url\": 7}}}"),
        Decoded::Act(Action::GoToUrl(None))
    ));
    // and such an action never reaches the browser
    assert!(matches!(
        step_directive("{\"next_action\": {\"go_to_url\": {}}}", false),
        Directive::Resolved(StepOutcome::Continue)
    ));
}

#[test]
fn form_data_keeps_only_complete_pairs() {
    let reply = "{\"next_action\": {\"fill_form\": {\"data\": [\
        {\"selector\": \"#a\", \"value\": \"1\"},\
        {\"selector\": \"#b\"},\
        {\"value\": \"3\"},\
        {\"selector\": \"#d\", \"value\": \"4\"}\
    ]}}}";
    match decode_reply(reply) {
        Decoded::Act(Action::FillForm(Some(pairs))) => {
            assert_eq!(
                pairs,
                vec![
                    (String::from("#a"), String::from("1")),
                    (String::from("#d"), String::from("4")),
                ]
            );
        },
        _ => panic!("expected form data"),
    }
    assert!(matches!(
        decode_reply("{\"next_action\": {\"fill_form\": {}}}"),
        Decoded::Act(Action::FillForm(None))
    ));
}

#[test]
fn credential_selectors_keep_only_strings() {
    let reply = "{\"next_action\": {\"fill_form_with_user_input_credentials\": \
        {\"data\": [\"#user\", 5, \"#pass\"]}}}";
    match decode_reply(reply) {
        Decoded::Act(Action::FillFormWithUserInputCredentials(Some(sels))) => {
            assert_eq!(sels, vec![String::from("#user"), String::from("#pass")]);
        },
        _ => panic!("expected credential selectors"),
    }
}

#[test]
fn document_actions_need_all_their_fields() {
    let full = "{\"next_action\": {\"create_document\": \
        {\"filename\": \"f\", \"content\": \"c\", \"format\": \"md\"}}}";
    match decode_reply(full) {
        Decoded::Act(Action::CreateDocument(Some((f, c, m)))) => {
            assert_eq!((f.as_str(), c.as_str(), m.as_str()), ("f", "c", "md"));
        },
        _ => panic!("expected a document action"),
    }
    let partial = "{\"next_action\": {\"create_document\": {\"filename\": \"f\"}}}";
    assert!(matches!(
        decode_reply(partial),
        Decoded::Act(Action::CreateDocument(None))
    ));
    let gen = "{\"next_action\": {\"generate_document\": \
        {\"task_description\": \"t\", \"filename\": \"f\", \"format\": \"html\"}}}";
    match step_directive(gen, false) {
        Directive::Perform(BrowserCommand::GenerateDocument(t, f, m)) => {
            assert_eq!((t.as_str(), f.as_str(), m.as_str()), ("t", "f", "html"));
        },
        _ => panic!("expected a generate-document command"),
    }
}

#[test]
fn priority_order_takes_the_first_recognized_key() {
    // both keys present: search_query stands before go_to_url in the chain
    let reply = "{\"next_action\": {\"go_to_url\": {\"url\": \"u\"}, \
        \"search_query\": {\"query\": \"q\"}}}";
    assert!(matches!(
        decode_reply(reply),
        Decoded::Act(Action::SearchQuery(Some(q))) if q == "q"
    ));
}

#[test]
fn directives_respect_the_extraction_guard() {
    let reply = "{\"next_action\": {\"extract_content\": {}}}";
    assert!(matches!(
        step_directive(reply, false),
        Directive::Perform(BrowserCommand::ExtractContent)
    ));
    assert!(matches!(
        step_directive(reply, true),
        Directive::Resolved(StepOutcome::Recoverable(Reason::AlreadyExtracted))
    ));
}

#[test]
fn outcome_words_match_the_wire_protocol() {
    assert_eq!(StepOutcome::Continue.describe(), "CONTINUE");
    assert_eq!(StepOutcome::GoalComplete.describe(), "AGENT_DONE");
    assert_eq!(
        StepOutcome::FinalAnswer(String::from("42")).describe(),
        "FINAL_ANSWER: 42"
    );
    assert_eq!(
        StepOutcome::Recoverable(Reason::ReplyNotJson(String::from("x"))).describe(),
        "ERROR_PARSING_JSON"
    );
    assert_eq!(
        StepOutcome::Recoverable(Reason::NoRecognizedAction).describe(),
        "ERROR_PARSING_ACTION"
    );
    assert_eq!(
        StepOutcome::Recoverable(Reason::AlreadyExtracted).describe(),
        "CONTENT_ALREADY_EXTRACTED"
    );
}
