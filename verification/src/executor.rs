//! The oracle's reply decoded once into a closed action vocabulary, and
//! the classification types that the step engine consumes: what to do in
//! the browser, and how a step's result is classified.

use crate::jsonprobe::{
    json_bool_field, json_field_text, json_get_bool, json_get_pair_items2, json_get_str,
    json_get_str2, json_get_str_items2, json_get_text, json_is_valid, json_pair_items2,
    json_parses, json_str_field, json_str_field2, json_str_items2,
};
use vstd::prelude::*;
use vstd::string::StringExecFns;

verus! {

/// One action of the closed vocabulary, as the oracle asked for it.
/// A parameter the oracle left out or mistyped stays `None`: the engine
/// then degrades the action to a no-op continue instead of failing.
pub enum Action {
    SearchQuery(Option<String>),
    GoToUrl(Option<String>),
    ExtractContent,
    ExtractInformation,
    ClickElement(Option<String>),
    FillForm(Option<Vec<(String, String)>>),
    FinalAnswer(Option<String>),
    GoBack,
    FillFormWithUserInputCredentials(Option<Vec<String>>),
    CreateDocument(Option<(String, String, String)>),
    GenerateDocument(Option<(String, String, String)>),
    Done,
    Stop(Option<String>),
    Unrecognized,
}

/// The mathematical shadow of `Action`.
pub enum ActionV {
    SearchQuery(Option<Seq<char>>),
    GoToUrl(Option<Seq<char>>),
    ExtractContent,
    ExtractInformation,
    ClickElement(Option<Seq<char>>),
    FillForm(Option<Seq<(Seq<char>, Seq<char>)>>),
    FinalAnswer(Option<Seq<char>>),
    GoBack,
    FillFormWithUserInputCredentials(Option<Seq<Seq<char>>>),
    CreateDocument(Option<(Seq<char>, Seq<char>, Seq<char>)>),
    GenerateDocument(Option<(Seq<char>, Seq<char>, Seq<char>)>),
    Done,
    Stop(Option<Seq<char>>),
    Unrecognized,
}

impl View for Action {
    type V = ActionV;

    open spec fn view(&self) -> ActionV {
        match self {
            Action::SearchQuery(q) => ActionV::SearchQuery(q.deep_view()),
            Action::GoToUrl(u) => ActionV::GoToUrl(u.deep_view()),
            Action::ExtractContent => ActionV::ExtractContent,
            Action::ExtractInformation => ActionV::ExtractInformation,
            Action::ClickElement(s) => ActionV::ClickElement(s.deep_view()),
            Action::FillForm(p) => ActionV::FillForm(p.deep_view()),
            Action::FinalAnswer(a) => ActionV::FinalAnswer(a.deep_view()),
            Action::GoBack => ActionV::GoBack,
            Action::FillFormWithUserInputCredentials(s) => {
                ActionV::FillFormWithUserInputCredentials(s.deep_view())
            },
            Action::CreateDocument(d) => ActionV::CreateDocument(d.deep_view()),
            Action::GenerateDocument(d) => ActionV::GenerateDocument(d.deep_view()),
            Action::Done => ActionV::Done,
            Action::Stop(a) => ActionV::Stop(a.deep_view()),
            Action::Unrecognized => ActionV::Unrecognized,
        }
    }
}

/// The oracle's whole reply, decoded once.
pub enum Decoded {
    /// The reply was not valid JSON.
    ReplyNotJson,
    /// The reply carried `"done": true`, with its optional final answer.
    DoneReply(Option<String>),
    /// The reply carried no `next_action` field.
    NoAction,
    /// The action under `next_action`.
    Act(Action),
}

/// The mathematical shadow of `Decoded`.
pub enum DecodedV {
    ReplyNotJson,
    DoneReply(Option<Seq<char>>),
    NoAction,
    Act(ActionV),
}

impl View for Decoded {
    type V = DecodedV;

    open spec fn view(&self) -> DecodedV {
        match self {
            Decoded::ReplyNotJson => DecodedV::ReplyNotJson,
            Decoded::DoneReply(a) => DecodedV::DoneReply(a.deep_view()),
            Decoded::NoAction => DecodedV::NoAction,
            Decoded::Act(a) => DecodedV::Act(a@),
        }
    }
}

/// Why a step is classified recoverable: the run goes on, a diagnostic
/// is recorded, and the current goal is not marked complete.
pub enum Reason {
    /// The oracle's reply was not valid JSON; the reply is kept for the
    /// diagnostic history entry.
    ReplyNotJson(String),
    /// The reply parsed but named no recognized action.
    NoRecognizedAction,
    /// The chosen action was content extraction on a URL whose content
    /// was already extracted in this run.
    AlreadyExtracted,
}

/// The mathematical shadow of `Reason`.
pub enum ReasonV {
    ReplyNotJson(Seq<char>),
    NoRecognizedAction,
    AlreadyExtracted,
}

impl View for Reason {
    type V = ReasonV;

    open spec fn view(&self) -> ReasonV {
        match self {
            Reason::ReplyNotJson(s) => ReasonV::ReplyNotJson(s@),
            Reason::NoRecognizedAction => ReasonV::NoRecognizedAction,
            Reason::AlreadyExtracted => ReasonV::AlreadyExtracted,
        }
    }
}

/// How one step ended, in place of magic result strings.
pub enum StepOutcome {
    /// The action ran (or degraded to a no-op); the goal counts as done.
    Continue,
    /// The oracle signalled that this agent is finished.
    GoalComplete,
    /// An explicit final answer; the run ends with it.
    FinalAnswer(String),
    /// A recoverable condition; the run goes on with the same goal.
    Recoverable(Reason),
    /// A browser-level failure; the run ends with an error answer.
    Fatal(String),
}

/// The mathematical shadow of `StepOutcome`.
pub enum StepOutcomeV {
    Continue,
    GoalComplete,
    FinalAnswer(Seq<char>),
    Recoverable(ReasonV),
    Fatal(Seq<char>),
}

impl View for StepOutcome {
    type V = StepOutcomeV;

    open spec fn view(&self) -> StepOutcomeV {
        match self {
            StepOutcome::Continue => StepOutcomeV::Continue,
            StepOutcome::GoalComplete => StepOutcomeV::GoalComplete,
            StepOutcome::FinalAnswer(a) => StepOutcomeV::FinalAnswer(a@),
            StepOutcome::Recoverable(r) => StepOutcomeV::Recoverable(r@),
            StepOutcome::Fatal(e) => StepOutcomeV::Fatal(e@),
        }
    }
}

/// A browser action with every parameter present, ready to perform.
pub enum BrowserCommand {
    SearchQuery(String),
    GoToUrl(String),
    ExtractContent,
    ExtractInformation,
    ClickElement(String),
    FillForm(Vec<(String, String)>),
    GoBack,
    FillFormWithUserInputCredentials(Vec<String>),
    CreateDocument(String, String, String),
    GenerateDocument(String, String, String),
}

/// The mathematical shadow of `BrowserCommand`.
pub enum BrowserCommandV {
    SearchQuery(Seq<char>),
    GoToUrl(Seq<char>),
    ExtractContent,
    ExtractInformation,
    ClickElement(Seq<char>),
    FillForm(Seq<(Seq<char>, Seq<char>)>),
    GoBack,
    FillFormWithUserInputCredentials(Seq<Seq<char>>),
    CreateDocument(Seq<char>, Seq<char>, Seq<char>),
    GenerateDocument(Seq<char>, Seq<char>, Seq<char>),
}

impl View for BrowserCommand {
    type V = BrowserCommandV;

    open spec fn view(&self) -> BrowserCommandV {
        match self {
            BrowserCommand::SearchQuery(q) => BrowserCommandV::SearchQuery(q@),
            BrowserCommand::GoToUrl(u) => BrowserCommandV::GoToUrl(u@),
            BrowserCommand::ExtractContent => BrowserCommandV::ExtractContent,
            BrowserCommand::ExtractInformation => BrowserCommandV::ExtractInformation,
            BrowserCommand::ClickElement(s) => BrowserCommandV::ClickElement(s@),
            BrowserCommand::FillForm(p) => BrowserCommandV::FillForm(p.deep_view()),
            BrowserCommand::GoBack => BrowserCommandV::GoBack,
            BrowserCommand::FillFormWithUserInputCredentials(s) => {
                BrowserCommandV::FillFormWithUserInputCredentials(s.deep_view())
            },
            BrowserCommand::CreateDocument(f, c, t) => {
                BrowserCommandV::CreateDocument(f@, c@, t@)
            },
            BrowserCommand::GenerateDocument(d, f, t) => {
                BrowserCommandV::GenerateDocument(d@, f@, t@)
            },
        }
    }
}

/// What the engine asks of its caller for one step: perform a browser
/// action, or nothing — the step already resolved.
pub enum Directive {
    Perform(BrowserCommand),
    Resolved(StepOutcome),
}

/// The mathematical shadow of `Directive`.
pub enum DirectiveV {
    Perform(BrowserCommandV),
    Resolved(StepOutcomeV),
}

impl View for Directive {
    type V = DirectiveV;

    open spec fn view(&self) -> DirectiveV {
        match self {
            Directive::Perform(c) => DirectiveV::Perform(c@),
            Directive::Resolved(o) => DirectiveV::Resolved(o@),
        }
    }
}

/// The form pairs whose selector and value are both present, in order.
pub open spec fn complete_pairs(items: Seq<(Option<Seq<char>>, Option<Seq<char>>)>) -> Seq<
    (Seq<char>, Seq<char>),
>
    decreases items.len(),
{
    if items.len() == 0 {
        Seq::empty()
    } else {
        let rest = complete_pairs(items.drop_first());
        if items[0].0 is Some && items[0].1 is Some {
            seq![(items[0].0->Some_0, items[0].1->Some_0)] + rest
        } else {
            rest
        }
    }
}

/// The items that are strings, in order.
pub open spec fn present_strings(items: Seq<Option<Seq<char>>>) -> Seq<Seq<char>>
    decreases items.len(),
{
    if items.len() == 0 {
        Seq::empty()
    } else {
        let rest = present_strings(items.drop_first());
        if items[0] is Some {
            seq![items[0]->Some_0] + rest
        } else {
            rest
        }
    }
}

fn filter_pairs(items: &Vec<(Option<String>, Option<String>)>) -> (r: Vec<(String, String)>)
    ensures
        r.deep_view() == complete_pairs(items.deep_view()),
{
    let n = items.len();
    let mut out: Vec<(String, String)> = Vec::new();
    let mut i: usize = 0;
    proof {
        assert(items.deep_view().subrange(0, n as int) =~= items.deep_view());
        assert(out.deep_view() + complete_pairs(items.deep_view()) =~= complete_pairs(
            items.deep_view(),
        ));
    }
    while i < n
        invariant
            0 <= i <= n,
            n == items@.len(),
            items.deep_view().len() == n,
            complete_pairs(items.deep_view()) == out.deep_view() + complete_pairs(
                items.deep_view().subrange(i as int, n as int),
            ),
        decreases n - i,
    {
        proof {
            let dv = items.deep_view();
            let rest = dv.subrange(i as int, n as int);
            assert(rest[0] == dv[i as int]);
            assert(rest.drop_first() =~= dv.subrange(i + 1, n as int));
            assert(dv[i as int] == items@[i as int].deep_view());
        }
        match &items[i] {
            (Some(sel), Some(val)) => {
                let pair = (sel.clone(), val.clone());
                proof {
                    assert((out@ + seq![pair]).map_values(
                        |p: (String, String)| p.deep_view(),
                    ) =~= out.deep_view() + seq![pair.deep_view()]);
                    assert(out.deep_view() + (seq![pair.deep_view()] + complete_pairs(
                        items.deep_view().subrange(i + 1, n as int),
                    )) =~= (out.deep_view() + seq![pair.deep_view()]) + complete_pairs(
                        items.deep_view().subrange(i + 1, n as int),
                    ));
                }
                out.push(pair);
            },
            _ => {},
        }
        i = i + 1;
    }
    proof {
        assert(items.deep_view().subrange(n as int, n as int) =~= Seq::<
            (Option<Seq<char>>, Option<Seq<char>>),
        >::empty());
        assert(out.deep_view() + complete_pairs(
            Seq::<(Option<Seq<char>>, Option<Seq<char>>)>::empty(),
        ) =~= out.deep_view());
    }
    out
}

fn filter_strings(items: &Vec<Option<String>>) -> (r: Vec<String>)
    ensures
        r.deep_view() == present_strings(items.deep_view()),
{
    let n = items.len();
    let mut out: Vec<String> = Vec::new();
    let mut i: usize = 0;
    proof {
        assert(items.deep_view().subrange(0, n as int) =~= items.deep_view());
        assert(out.deep_view() + present_strings(items.deep_view()) =~= present_strings(
            items.deep_view(),
        ));
    }
    while i < n
        invariant
            0 <= i <= n,
            n == items@.len(),
            items.deep_view().len() == n,
            present_strings(items.deep_view()) == out.deep_view() + present_strings(
                items.deep_view().subrange(i as int, n as int),
            ),
        decreases n - i,
    {
        proof {
            let dv = items.deep_view();
            let rest = dv.subrange(i as int, n as int);
            assert(rest[0] == dv[i as int]);
            assert(rest.drop_first() =~= dv.subrange(i + 1, n as int));
            assert(dv[i as int] == items@[i as int].deep_view());
        }
        match &items[i] {
            Some(s) => {
                let w = s.clone();
                proof {
                    assert((out@ + seq![w]).map_values(|x: String| x.deep_view())
                        =~= out.deep_view() + seq![w.deep_view()]);
                    assert(out.deep_view() + (seq![w.deep_view()] + present_strings(
                        items.deep_view().subrange(i + 1, n as int),
                    )) =~= (out.deep_view() + seq![w.deep_view()]) + present_strings(
                        items.deep_view().subrange(i + 1, n as int),
                    ));
                }
                out.push(w);
            },
            None => {},
        }
        i = i + 1;
    }
    proof {
        assert(items.deep_view().subrange(n as int, n as int) =~= Seq::<
            Option<Seq<char>>,
        >::empty());
        assert(out.deep_view() + present_strings(Seq::<Option<Seq<char>>>::empty())
            =~= out.deep_view());
    }
    out
}

/// Which action the `next_action` object names, by the first recognized
/// key in the fixed priority order of the vocabulary, with its
/// parameters where they are present and well-typed.
pub open spec fn action_spec(t: Seq<char>) -> ActionV {
    if json_field_text(t, "search_query"@) is Some {
        ActionV::SearchQuery(json_str_field2(t, "search_query"@, "query"@))
    } else if json_field_text(t, "go_to_url"@) is Some {
        ActionV::GoToUrl(json_str_field2(t, "go_to_url"@, "url"@))
    } else if json_field_text(t, "extract_content"@) is Some {
        ActionV::ExtractContent
    } else if json_field_text(t, "extract_information"@) is Some {
        ActionV::ExtractInformation
    } else if json_field_text(t, "click_element"@) is Some {
        ActionV::ClickElement(json_str_field2(t, "click_element"@, "selector"@))
    } else if json_field_text(t, "fill_form"@) is Some {
        ActionV::FillForm(
            match json_pair_items2(t, "fill_form"@, "data"@, "selector"@, "value"@) {
                Option::None => Option::None,
                Option::Some(items) => Option::Some(complete_pairs(items)),
            },
        )
    } else if json_field_text(t, "final_answer"@) is Some {
        ActionV::FinalAnswer(json_str_field2(t, "final_answer"@, "answer"@))
    } else if json_field_text(t, "go_back"@) is Some {
        ActionV::GoBack
    } else if json_field_text(t, "fill_form_with_user_input_credentials"@) is Some {
        ActionV::FillFormWithUserInputCredentials(
            match json_str_items2(t, "fill_form_with_user_input_credentials"@, "data"@) {
                Option::None => Option::None,
                Option::Some(items) => Option::Some(present_strings(items)),
            },
        )
    } else if json_field_text(t, "create_document"@) is Some {
        ActionV::CreateDocument(document_triple(t, "create_document"@))
    } else if json_field_text(t, "generate_document"@) is Some {
        ActionV::GenerateDocument(generate_triple(t, "generate_document"@))
    } else if json_field_text(t, "done"@) is Some {
        ActionV::Done
    } else if json_field_text(t, "stop"@) is Some {
        ActionV::Stop(json_str_field2(t, "stop"@, "final_answer"@))
    } else {
        ActionV::Unrecognized
    }
}

/// Filename, content and format of a document action, all three or none.
pub open spec fn document_triple(t: Seq<char>, key: Seq<char>) -> Option<
    (Seq<char>, Seq<char>, Seq<char>),
> {
    let f = json_str_field2(t, key, "filename"@);
    let c = json_str_field2(t, key, "content"@);
    let m = json_str_field2(t, key, "format"@);
    if f is Some && c is Some && m is Some {
        Option::Some((f->Some_0, c->Some_0, m->Some_0))
    } else {
        Option::None
    }
}

/// Task description, filename and format of a generated document, all
/// three or none.
pub open spec fn generate_triple(t: Seq<char>, key: Seq<char>) -> Option<
    (Seq<char>, Seq<char>, Seq<char>),
> {
    let d = json_str_field2(t, key, "task_description"@);
    let f = json_str_field2(t, key, "filename"@);
    let m = json_str_field2(t, key, "format"@);
    if d is Some && f is Some && m is Some {
        Option::Some((d->Some_0, f->Some_0, m->Some_0))
    } else {
        Option::None
    }
}

/// The whole reply decoded: parse failure, a done signal, a missing
/// action, or one action of the vocabulary.
pub open spec fn decode_spec(s: Seq<char>) -> DecodedV {
    if !json_parses(s) {
        DecodedV::ReplyNotJson
    } else if json_bool_field(s, "done"@) == Option::<bool>::Some(true) {
        DecodedV::DoneReply(json_str_field(s, "final_answer"@))
    } else {
        match json_field_text(s, "next_action"@) {
            Option::None => DecodedV::NoAction,
            Option::Some(t) => DecodedV::Act(action_spec(t)),
        }
    }
}

fn decode_action(t: &str) -> (a: Action)
    ensures
        a@ == action_spec(t@),
{
    if json_get_text(t, "search_query").is_some() {
        Action::SearchQuery(json_get_str2(t, "search_query", "query"))
    } else if json_get_text(t, "go_to_url").is_some() {
        Action::GoToUrl(json_get_str2(t, "go_to_url", "url"))
    } else if json_get_text(t, "extract_content").is_some() {
        Action::ExtractContent
    } else if json_get_text(t, "extract_information").is_some() {
        Action::ExtractInformation
    } else if json_get_text(t, "click_element").is_some() {
        Action::ClickElement(json_get_str2(t, "click_element", "selector"))
    } else if json_get_text(t, "fill_form").is_some() {
        match json_get_pair_items2(t, "fill_form", "data", "selector", "value") {
            None => Action::FillForm(None),
            Some(items) => Action::FillForm(Some(filter_pairs(&items))),
        }
    } else if json_get_text(t, "final_answer").is_some() {
        Action::FinalAnswer(json_get_str2(t, "final_answer", "answer"))
    } else if json_get_text(t, "go_back").is_some() {
        Action::GoBack
    } else if json_get_text(t, "fill_form_with_user_input_credentials").is_some() {
        match json_get_str_items2(t, "fill_form_with_user_input_credentials", "data") {
            None => Action::FillFormWithUserInputCredentials(None),
            Some(items) => Action::FillFormWithUserInputCredentials(
                Some(filter_strings(&items)),
            ),
        }
    } else if json_get_text(t, "create_document").is_some() {
        let f = json_get_str2(t, "create_document", "filename");
        let c = json_get_str2(t, "create_document", "content");
        let m = json_get_str2(t, "create_document", "format");
        match (f, c, m) {
            (Some(f), Some(c), Some(m)) => Action::CreateDocument(Some((f, c, m))),
            _ => Action::CreateDocument(None),
        }
    } else if json_get_text(t, "generate_document").is_some() {
        let d = json_get_str2(t, "generate_document", "task_description");
        let f = json_get_str2(t, "generate_document", "filename");
        let m = json_get_str2(t, "generate_document", "format");
        match (d, f, m) {
            (Some(d), Some(f), Some(m)) => Action::GenerateDocument(Some((d, f, m))),
            _ => Action::GenerateDocument(None),
        }
    } else if json_get_text(t, "done").is_some() {
        Action::Done
    } else if json_get_text(t, "stop").is_some() {
        Action::Stop(json_get_str2(t, "stop", "final_answer"))
    } else {
        Action::Unrecognized
    }
}

/// Decode the oracle's whole reply once.
pub fn decode_reply(reply: &str) -> (d: Decoded)
    ensures
        d@ == decode_spec(reply@),
{
    if !json_is_valid(reply) {
        return Decoded::ReplyNotJson;
    }
    if let Some(true) = json_get_bool(reply, "done") {
        return Decoded::DoneReply(json_get_str(reply, "final_answer"));
    }
    match json_get_text(reply, "next_action") {
        None => Decoded::NoAction,
        Some(t) => Decoded::Act(decode_action(t.as_str())),
    }
}

/// What one decoded action asks of the engine's caller. An action whose
/// required parameter is missing degrades to a no-op continue; content
/// extraction on an already-extracted URL short-circuits without any
/// browser work.
pub open spec fn action_directive(a: ActionV, already_extracted: bool) -> DirectiveV {
    match a {
        ActionV::SearchQuery(q) => match q {
            Option::Some(q) => DirectiveV::Perform(BrowserCommandV::SearchQuery(q)),
            Option::None => DirectiveV::Resolved(StepOutcomeV::Continue),
        },
        ActionV::GoToUrl(u) => match u {
            Option::Some(u) => DirectiveV::Perform(BrowserCommandV::GoToUrl(u)),
            Option::None => DirectiveV::Resolved(StepOutcomeV::Continue),
        },
        ActionV::ExtractContent => if already_extracted {
            DirectiveV::Resolved(StepOutcomeV::Recoverable(ReasonV::AlreadyExtracted))
        } else {
            DirectiveV::Perform(BrowserCommandV::ExtractContent)
        },
        ActionV::ExtractInformation => DirectiveV::Perform(BrowserCommandV::ExtractInformation),
        ActionV::ClickElement(s) => match s {
            Option::Some(s) => DirectiveV::Perform(BrowserCommandV::ClickElement(s)),
            Option::None => DirectiveV::Resolved(StepOutcomeV::Continue),
        },
        ActionV::FillForm(p) => match p {
            Option::Some(p) => DirectiveV::Perform(BrowserCommandV::FillForm(p)),
            Option::None => DirectiveV::Resolved(StepOutcomeV::Continue),
        },
        ActionV::FinalAnswer(a) => match a {
            Option::Some(a) => DirectiveV::Resolved(StepOutcomeV::FinalAnswer(a)),
            Option::None => DirectiveV::Resolved(StepOutcomeV::Continue),
        },
        ActionV::GoBack => DirectiveV::Perform(BrowserCommandV::GoBack),
        ActionV::FillFormWithUserInputCredentials(s) => match s {
            Option::Some(s) => DirectiveV::Perform(
                BrowserCommandV::FillFormWithUserInputCredentials(s),
            ),
            Option::None => DirectiveV::Resolved(StepOutcomeV::Continue),
        },
        ActionV::CreateDocument(d) => match d {
            Option::Some(d) => DirectiveV::Perform(
                BrowserCommandV::CreateDocument(d.0, d.1, d.2),
            ),
            Option::None => DirectiveV::Resolved(StepOutcomeV::Continue),
        },
        ActionV::GenerateDocument(d) => match d {
            Option::Some(d) => DirectiveV::Perform(
                BrowserCommandV::GenerateDocument(d.0, d.1, d.2),
            ),
            Option::None => DirectiveV::Resolved(StepOutcomeV::Continue),
        },
        ActionV::Done => DirectiveV::Resolved(StepOutcomeV::GoalComplete),
        ActionV::Stop(a) => match a {
            Option::Some(a) => DirectiveV::Resolved(StepOutcomeV::FinalAnswer(a)),
            Option::None => DirectiveV::Resolved(StepOutcomeV::Continue),
        },
        ActionV::Unrecognized => DirectiveV::Resolved(
            StepOutcomeV::Recoverable(ReasonV::NoRecognizedAction),
        ),
    }
}

/// What the whole reply asks of the engine's caller.
pub open spec fn directive_spec(reply: Seq<char>, already_extracted: bool) -> DirectiveV {
    match decode_spec(reply) {
        DecodedV::ReplyNotJson => DirectiveV::Resolved(
            StepOutcomeV::Recoverable(ReasonV::ReplyNotJson(reply)),
        ),
        DecodedV::DoneReply(a) => match a {
            Option::Some(a) => DirectiveV::Resolved(StepOutcomeV::FinalAnswer(a)),
            Option::None => DirectiveV::Resolved(StepOutcomeV::Continue),
        },
        DecodedV::NoAction => DirectiveV::Resolved(
            StepOutcomeV::Recoverable(ReasonV::NoRecognizedAction),
        ),
        DecodedV::Act(a) => action_directive(a, already_extracted),
    }
}

/// Decode the reply and decide what the step asks for.
pub fn step_directive(reply: &str, already_extracted: bool) -> (d: Directive)
    ensures
        d@ == directive_spec(reply@, already_extracted),
{
    let decoded = decode_reply(reply);
    match decoded {
        Decoded::ReplyNotJson => Directive::Resolved(
            StepOutcome::Recoverable(Reason::ReplyNotJson(reply.to_owned())),
        ),
        Decoded::DoneReply(a) => match a {
            Some(a) => Directive::Resolved(StepOutcome::FinalAnswer(a)),
            None => Directive::Resolved(StepOutcome::Continue),
        },
        Decoded::NoAction => Directive::Resolved(
            StepOutcome::Recoverable(Reason::NoRecognizedAction),
        ),
        Decoded::Act(a) => match a {
            Action::SearchQuery(q) => match q {
                Some(q) => Directive::Perform(BrowserCommand::SearchQuery(q)),
                None => Directive::Resolved(StepOutcome::Continue),
            },
            Action::GoToUrl(u) => match u {
                Some(u) => Directive::Perform(BrowserCommand::GoToUrl(u)),
                None => Directive::Resolved(StepOutcome::Continue),
            },
            Action::ExtractContent => if already_extracted {
                Directive::Resolved(StepOutcome::Recoverable(Reason::AlreadyExtracted))
            } else {
                Directive::Perform(BrowserCommand::ExtractContent)
            },
            Action::ExtractInformation => Directive::Perform(BrowserCommand::ExtractInformation),
            Action::ClickElement(s) => match s {
                Some(s) => Directive::Perform(BrowserCommand::ClickElement(s)),
                None => Directive::Resolved(StepOutcome::Continue),
            },
            Action::FillForm(p) => match p {
                Some(p) => Directive::Perform(BrowserCommand::FillForm(p)),
                None => Directive::Resolved(StepOutcome::Continue),
            },
            Action::FinalAnswer(a) => match a {
                Some(a) => Directive::Resolved(StepOutcome::FinalAnswer(a)),
                None => Directive::Resolved(StepOutcome::Continue),
            },
            Action::GoBack => Directive::Perform(BrowserCommand::GoBack),
            Action::FillFormWithUserInputCredentials(s) => match s {
                Some(s) => Directive::Perform(
                    BrowserCommand::FillFormWithUserInputCredentials(s),
                ),
                None => Directive::Resolved(StepOutcome::Continue),
            },
            Action::CreateDocument(d) => match d {
                Some(d) => Directive::Perform(BrowserCommand::CreateDocument(d.0, d.1, d.2)),
                None => Directive::Resolved(StepOutcome::Continue),
            },
            Action::GenerateDocument(d) => match d {
                Some(d) => Directive::Perform(BrowserCommand::GenerateDocument(d.0, d.1, d.2)),
                None => Directive::Resolved(StepOutcome::Continue),
            },
            Action::Done => Directive::Resolved(StepOutcome::GoalComplete),
            Action::Stop(a) => match a {
                Some(a) => Directive::Resolved(StepOutcome::FinalAnswer(a)),
                None => Directive::Resolved(StepOutcome::Continue),
            },
            Action::Unrecognized => Directive::Resolved(
                StepOutcome::Recoverable(Reason::NoRecognizedAction),
            ),
        },
    }
}

/// The outcome of a completed information-extraction action: the oracle
/// is asked whether the goal is reached; only an affirmative reply with
/// an answer ends the run.
pub open spec fn extraction_outcome_spec(reply: Seq<char>) -> StepOutcomeV {
    if json_bool_field(reply, "final_goal_reached"@) == Option::<bool>::Some(true)
        && json_str_field(reply, "final_answer"@) is Some {
        StepOutcomeV::FinalAnswer(json_str_field(reply, "final_answer"@)->Some_0)
    } else {
        StepOutcomeV::Continue
    }
}

/// Classify the oracle's reply to an information-extraction request.
pub fn extraction_outcome(reply: &str) -> (o: StepOutcome)
    ensures
        o@ == extraction_outcome_spec(reply@),
{
    if let Some(true) = json_get_bool(reply, "final_goal_reached") {
        if let Some(a) = json_get_str(reply, "final_answer") {
            return StepOutcome::FinalAnswer(a);
        }
    }
    StepOutcome::Continue
}

/// The classification's short wire word, as it is recorded in history.
pub open spec fn outcome_text(o: StepOutcomeV) -> Seq<char> {
    match o {
        StepOutcomeV::Continue => "CONTINUE"@,
        StepOutcomeV::GoalComplete => "AGENT_DONE"@,
        StepOutcomeV::FinalAnswer(a) => "FINAL_ANSWER: "@ + a,
        StepOutcomeV::Recoverable(r) => match r {
            ReasonV::ReplyNotJson(_) => "ERROR_PARSING_JSON"@,
            ReasonV::NoRecognizedAction => "ERROR_PARSING_ACTION"@,
            ReasonV::AlreadyExtracted => "CONTENT_ALREADY_EXTRACTED"@,
        },
        StepOutcomeV::Fatal(e) => "Critical error during execution: "@ + e,
    }
}

impl StepOutcome {
    /// The classification's short wire word.
    pub fn describe(&self) -> (r: String)
        ensures
            r@ == outcome_text(self@),
    {
        match self {
            StepOutcome::Continue => String::from_str("CONTINUE"),
            StepOutcome::GoalComplete => String::from_str("AGENT_DONE"),
            StepOutcome::FinalAnswer(a) => {
                let mut s = String::from_str("FINAL_ANSWER: ");
                s.append(a.as_str());
                s
            },
            StepOutcome::Recoverable(r) => match r {
                Reason::ReplyNotJson(_) => String::from_str("ERROR_PARSING_JSON"),
                Reason::NoRecognizedAction => String::from_str("ERROR_PARSING_ACTION"),
                Reason::AlreadyExtracted => String::from_str("CONTENT_ALREADY_EXTRACTED"),
            },
            StepOutcome::Fatal(e) => {
                let mut s = String::from_str("Critical error during execution: ");
                s.append(e.as_str());
                s
            },
        }
    }
}

} // verus!
