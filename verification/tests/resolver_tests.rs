use project_oculus::interactive_elements::{
    choose_locator, element_key, elements_text, name_selector, resolve_elements, ElementInfo,
    Locator,
};

fn plain(tag: &str, text: &str, index: u64) -> ElementInfo {
    ElementInfo {
        tag_name: String::from(tag),
        text: String::from(text),
        id_attr: None,
        id_match_count: 0,
        name_attr: None,
        name_match_count: 0,
        js_path: None,
        path_match_count: 0,
        displayed: true,
        index,
    }
}

#[test]
fn unique_id_wins_over_everything() {
    let mut info = plain("BUTTON", "Submit", 4);
    info.id_attr = Some(String::from("submit-btn"));
    info.id_match_count = 1;
    info.name_attr = Some(String::from("submit"));
    info.name_match_count = 1;
    info.js_path = Some(String::from("/html/body/button[1]"));
    info.path_match_count = 1;
    match choose_locator(&info) {
        Locator::ById(id) => assert_eq!(id, "submit-btn"),
        _ => panic!("the identity tier must win"),
    }
}

#[test]
fn ambiguous_id_falls_to_unique_name() {
    let mut info = plain("INPUT", "", 2);
    info.id_attr = Some(String::from("dup"));
    info.id_match_count = 3;
    info.name_attr = Some(String::from("q"));
    info.name_match_count = 1;
    match choose_locator(&info) {
        Locator::ByCss(css) => assert_eq!(css, "input[name='q']"),
        _ => panic!("the name tier must follow the identity tier"),
    }
}

#[test]
fn name_selector_escapes_single_quotes() {
    assert_eq!(
        name_selector("input", "it's mine"),
        "input[name='it\\'s mine']"
    );
}

#[test]
fn structural_path_needs_one_match() {
    let mut info = plain("A", "Home", 0);
    info.js_path = Some(String::from("/html/body/a[2]"));
    info.path_match_count = 2;
    match choose_locator(&info) {
        Locator::ByXPath(p) => assert_eq!(p, "/html/body/a[2]"),
        _ => panic!("a path that matched at all is used"),
    }
}

#[test]
fn fallback_when_every_tier_fails() {
    // no id, no name, and a structural path that resolved to nothing
    let mut info = plain("BUTTON", "Pay now", 4);
    info.js_path = Some(String::from("/html/body/button[9]"));
    info.path_match_count = 0;
    match choose_locator(&info) {
        Locator::ByCss(css) => assert_eq!(css, "html body button:nth-of-type(5)"),
        _ => panic!("the positional fallback must still produce a locator"),
    }
}

#[test]
fn keys_take_tag_and_first_three_words() {
    assert_eq!(
        element_key("button", "Submit Your Order Now", 0),
        "button_submit_your_order"
    );
    assert_eq!(element_key("a", "Home", 3), "a_home");
}

#[test]
fn keys_without_text_use_the_index() {
    assert_eq!(element_key("input", "", 7), "input_no_text_idx_7");
    assert_eq!(element_key("input", "   ", 12), "input_no_text_idx_12");
}

#[test]
fn keys_are_sanitized() {
    assert_eq!(element_key("A", "Save 50% Today!", 0), "a_save_50_today");
    // "--" and "/" are words too: only "Read" survives of the first three
    assert_eq!(element_key("a", "-- Read / More --", 1), "a_read");
    assert_eq!(element_key("a", "Read More -- Now", 1), "a_read_more");
}

#[test]
fn unsanitizable_keys_get_the_placeholder() {
    assert_eq!(element_key("\u{7ad9}", "\u{70b9}\u{51fb}", 9), "unknown_element_9");
}

#[test]
fn resolve_gives_unique_keys_and_skips_hidden_elements() {
    let mut hidden = plain("button", "Buy", 0);
    hidden.displayed = false;
    let infos = vec![
        hidden,
        plain("button", "Buy", 1),
        plain("button", "Buy", 2),
        plain("button", "Buy", 3),
    ];
    let entries = resolve_elements(&infos);
    assert_eq!(entries.len(), 3);
    assert_eq!(entries[0].0, "button_buy");
    assert_eq!(entries[1].0, "button_buy_1");
    assert_eq!(entries[2].0, "button_buy_2");
    for i in 0..entries.len() {
        for j in (i + 1)..entries.len() {
            assert_ne!(entries[i].0, entries[j].0);
        }
    }
    // the hidden element left no entry; positions follow the scan order
    match &entries[0].1 {
        Locator::ByCss(css) => assert_eq!(css, "html body button:nth-of-type(2)"),
        _ => panic!("expected the positional fallback"),
    }
}

#[test]
fn resolve_keeps_the_priority_chain_per_element() {
    let mut with_id = plain("input", "", 0);
    with_id.id_attr = Some(String::from("search"));
    with_id.id_match_count = 1;
    let mut with_name = plain("input", "", 1);
    with_name.name_attr = Some(String::from("city"));
    with_name.name_match_count = 1;
    let infos = vec![with_id, with_name];
    let entries = resolve_elements(&infos);
    assert_eq!(entries.len(), 2);
    assert!(matches!(&entries[0].1, Locator::ById(id) if id == "search"));
    assert!(matches!(&entries[1].1, Locator::ByCss(css) if css == "input[name='city']"));
}

#[test]
fn elements_text_renders_one_line_per_entry() {
    let entries: Vec<(String, Locator)> = vec![];
    assert_eq!(elements_text(&entries), "No interactive elements found.");
    let entries = vec![
        (String::from("a_home"), Locator::ById(String::from("home"))),
        (
            String::from("input_q"),
            Locator::ByCss(String::from("input[name='q']")),
        ),
    ];
    assert_eq!(
        elements_text(&entries),
        "a_home: ById(\"home\")\ninput_q: ByCss(\"input[name='q']\")"
    );
}
