//! The locator resolver: from plain observations of a page's candidate
//! elements to a resolved element map — unique descriptive keys, each
//! with the most specific locator the observations support.
//!
//! The caller queries the browser and reports, per element, the tag
//! name, visible text, id and name attributes, how many elements each
//! candidate selector matched, and a structural path if one was
//! computed. Everything after that observation is decided and verified
//! here.

use crate::numtext::{dec_of, lemma_dec_of_injective, lemma_dec_of_len, to_decimal};
use crate::textutil::{
    join_strings, join_with, lower_all, replace_all, replace_str, sanitize_text, sanitized,
    split_words, str_eq, to_lowercase_ascii, words_of,
};
use vstd::prelude::*;
use vstd::set_lib::lemma_len_subset;
use vstd::string::StrSliceExecFns;
use vstd::string::StringExecFns;

verus! {

/// A locator descriptor: how a browser session can find the element
/// again — by id attribute, by a CSS-like selector, or by a structural
/// path from the document root.
pub enum Locator {
    ById(String),
    ByCss(String),
    ByXPath(String),
}

/// The mathematical shadow of `Locator`.
pub enum LocatorV {
    ById(Seq<char>),
    ByCss(Seq<char>),
    ByXPath(Seq<char>),
}

impl View for Locator {
    type V = LocatorV;

    open spec fn view(&self) -> LocatorV {
        match self {
            Locator::ById(s) => LocatorV::ById(s@),
            Locator::ByCss(s) => LocatorV::ByCss(s@),
            Locator::ByXPath(s) => LocatorV::ByXPath(s@),
        }
    }
}

impl DeepView for Locator {
    type V = LocatorV;

    open spec fn deep_view(&self) -> LocatorV {
        self@
    }
}

/// The one-line rendering of a locator, as it stands in the prompt.
pub open spec fn locator_text(l: LocatorV) -> Seq<char> {
    match l {
        LocatorV::ById(s) => "ById(\""@ + s + "\")"@,
        LocatorV::ByCss(s) => "ByCss(\""@ + s + "\")"@,
        LocatorV::ByXPath(s) => "ByXPath(\""@ + s + "\")"@,
    }
}

impl Locator {
    /// Render the locator for the prompt.
    pub fn describe(&self) -> (r: String)
        ensures
            r@ == locator_text(self@),
    {
        match self {
            Locator::ById(s) => {
                let mut r = String::from_str("ById(\"");
                r.append(s.as_str());
                r.append("\")");
                r
            },
            Locator::ByCss(s) => {
                let mut r = String::from_str("ByCss(\"");
                r.append(s.as_str());
                r.append("\")");
                r
            },
            Locator::ByXPath(s) => {
                let mut r = String::from_str("ByXPath(\"");
                r.append(s.as_str());
                r.append("\")");
                r
            },
        }
    }
}

/// What the caller observed of one candidate element.
pub struct ElementInfo {
    /// The element's tag name, as reported by the browser.
    pub tag_name: String,
    /// The element's visible text, trimmed or not.
    pub text: String,
    /// The id attribute, where the element has one.
    pub id_attr: Option<String>,
    /// How many elements on the page match that id.
    pub id_match_count: u64,
    /// The name attribute, where the element has one.
    pub name_attr: Option<String>,
    /// How many elements match the tag-scoped name selector that
    /// `name_selector` builds for this element.
    pub name_match_count: u64,
    /// A structural path from the document root, where one was computed.
    pub js_path: Option<String>,
    /// How many elements that path resolves to.
    pub path_match_count: u64,
    /// Whether the element is currently rendered.
    pub displayed: bool,
    /// The element's position in the enumeration order of the page scan.
    pub index: u64,
}

/// The mathematical shadow of `ElementInfo`.
pub struct ElementInfoV {
    pub tag_name: Seq<char>,
    pub text: Seq<char>,
    pub id_attr: Option<Seq<char>>,
    pub id_match_count: u64,
    pub name_attr: Option<Seq<char>>,
    pub name_match_count: u64,
    pub js_path: Option<Seq<char>>,
    pub path_match_count: u64,
    pub displayed: bool,
    pub index: u64,
}

impl View for ElementInfo {
    type V = ElementInfoV;

    open spec fn view(&self) -> ElementInfoV {
        ElementInfoV {
            tag_name: self.tag_name@,
            text: self.text@,
            id_attr: self.id_attr.deep_view(),
            id_match_count: self.id_match_count,
            name_attr: self.name_attr.deep_view(),
            name_match_count: self.name_match_count,
            js_path: self.js_path.deep_view(),
            path_match_count: self.path_match_count,
            displayed: self.displayed,
            index: self.index,
        }
    }
}

impl DeepView for ElementInfo {
    type V = ElementInfoV;

    open spec fn deep_view(&self) -> ElementInfoV {
        self@
    }
}

/// At most the first three entries.
pub open spec fn take3(ws: Seq<Seq<char>>) -> Seq<Seq<char>> {
    if ws.len() <= 3 {
        ws
    } else {
        ws.subrange(0, 3)
    }
}

/// The descriptive part of an element key: up to three words of the
/// visible text, joined by underscores.
pub open spec fn descriptive_text(text: Seq<char>) -> Seq<char> {
    join_with(take3(words_of(text)), "_"@)
}

/// The raw element key before sanitization: lowercased tag name plus the
/// descriptive text, or tag name plus the enumeration index where no
/// text is there.
pub open spec fn key_base_spec(tag_l: Seq<char>, text: Seq<char>, index: u64) -> Seq<char> {
    if descriptive_text(text).len() > 0 {
        tag_l + "_"@ + descriptive_text(text)
    } else {
        tag_l + "_no_text_idx_"@ + dec_of(index as nat)
    }
}

/// The sanitized element key, with the positional placeholder where
/// sanitization lost everything.
pub open spec fn element_key_spec(tag_l: Seq<char>, text: Seq<char>, index: u64) -> Seq<char> {
    if sanitized(key_base_spec(tag_l, text, index)).len() > 0 {
        sanitized(key_base_spec(tag_l, text, index))
    } else {
        "unknown_element_"@ + dec_of(index as nat)
    }
}

fn take_up_to_3(ws: &Vec<String>) -> (r: Vec<String>)
    ensures
        r@.map_values(|w: String| w@) == take3(ws@.map_values(|w: String| w@)),
{
    let n = if ws.len() <= 3 {
        ws.len()
    } else {
        3
    };
    let mut out: Vec<String> = Vec::new();
    let mut i: usize = 0;
    while i < n
        invariant
            0 <= i <= n <= ws@.len(),
            out@.map_values(|w: String| w@) == ws@.map_values(|w: String| w@).subrange(
                0,
                i as int,
            ),
        decreases n - i,
    {
        let w = ws[i].clone();
        proof {
            let wv = ws@.map_values(|w: String| w@);
            assert(wv[i as int] == ws@[i as int]@);
            assert((out@ + seq![w]).map_values(|x: String| x@) =~= out@.map_values(
                |x: String| x@,
            ).push(w@));
            assert(wv.subrange(0, i + 1) =~= wv.subrange(0, i as int).push(wv[i as int]));
        }
        out.push(w);
        i = i + 1;
    }
    proof {
        let wv = ws@.map_values(|w: String| w@);
        if ws@.len() <= 3 {
            assert(wv.subrange(0, n as int) =~= wv);
        }
        assert(out@.map_values(|w: String| w@) =~= take3(wv));
    }
    out
}

/// Derive the sanitized key for one element.
pub fn element_key(tag_l: &str, text: &str, index: u64) -> (r: String)
    ensures
        r@ == element_key_spec(tag_l@, text@, index),
{
    let words = split_words(text);
    let first = take_up_to_3(&words);
    let descriptive = join_strings(&first, "_");
    let mut base = tag_l.to_owned();
    if !descriptive.as_str().is_empty() {
        base.append("_");
        base.append(descriptive.as_str());
    } else {
        base.append("_no_text_idx_");
        let num = to_decimal(index);
        base.append(num.as_str());
    }
    proof {
        assert(descriptive@ == descriptive_text(text@));
        assert(base@ == key_base_spec(tag_l@, text@, index));
    }
    let key = sanitize_text(base.as_str());
    if key.as_str().is_empty() {
        let mut fallback = String::from_str("unknown_element_");
        let num = to_decimal(index);
        fallback.append(num.as_str());
        fallback
    } else {
        key
    }
}

/// The tag-scoped selector over the name attribute, single quotes in the
/// value escaped.
pub open spec fn name_selector_spec(tag_l: Seq<char>, name: Seq<char>) -> Seq<char> {
    tag_l + "[name='"@ + replace_all(name, "'"@, "\\'"@) + "']"@
}

/// Build the tag-scoped name selector for an element.
pub fn name_selector(tag_l: &str, name: &str) -> (r: String)
    ensures
        r@ == name_selector_spec(tag_l@, name@),
{
    proof {
        reveal_strlit("'");
    }
    let escaped = replace_str(name, "'", "\\'");
    let mut s = tag_l.to_owned();
    s.append("[name='");
    s.append(escaped.as_str());
    s.append("']");
    proof {
        assert(s@ =~= name_selector_spec(tag_l@, name@));
    }
    s
}

/// The positional fallback selector: tag name and enumeration position
/// under the document body. The one tier that does not require a unique
/// match, and documented as unreliable.
pub open spec fn positional_spec(tag_l: Seq<char>, index: u64) -> Seq<char> {
    "html body "@ + tag_l + ":nth-of-type("@ + dec_of((index + 1) as nat) + ")"@
}

/// Which locator the priority chain picks for one observed element:
/// a verified-unique id attribute first, then a verified-unique
/// tag-scoped name selector, then a structural path that matched at
/// all, and the positional fallback last.
pub open spec fn choose_locator_spec(info: ElementInfoV) -> LocatorV {
    let tag_l = lower_all(info.tag_name);
    if info.id_attr is Some && (info.id_attr->Some_0).len() > 0 && info.id_match_count == 1 {
        LocatorV::ById(info.id_attr->Some_0)
    } else if info.name_attr is Some && (info.name_attr->Some_0).len() > 0
        && info.name_match_count == 1 {
        LocatorV::ByCss(name_selector_spec(tag_l, info.name_attr->Some_0))
    } else if info.js_path is Some && info.path_match_count >= 1 {
        LocatorV::ByXPath(info.js_path->Some_0)
    } else {
        LocatorV::ByCss(positional_spec(tag_l, info.index))
    }
}

/// Pick the locator for one observed element.
pub fn choose_locator(info: &ElementInfo) -> (r: Locator)
    requires
        info.index < u64::MAX,
    ensures
        r@ == choose_locator_spec(info@),
{
    let tag_l = to_lowercase_ascii(info.tag_name.as_str());
    if let Some(id) = &info.id_attr {
        if !id.as_str().is_empty() && info.id_match_count == 1 {
            return Locator::ById(id.clone());
        }
    }
    if let Some(name) = &info.name_attr {
        if !name.as_str().is_empty() && info.name_match_count == 1 {
            return Locator::ByCss(name_selector(tag_l.as_str(), name.as_str()));
        }
    }
    if let Some(path) = &info.js_path {
        if info.path_match_count >= 1 {
            return Locator::ByXPath(path.clone());
        }
    }
    let mut s = String::from_str("html body ");
    s.append(tag_l.as_str());
    s.append(":nth-of-type(");
    let num = to_decimal(info.index + 1);
    s.append(num.as_str());
    s.append(")");
    proof {
        assert(s@ =~= positional_spec(lower_all(info.tag_name@), info.index));
    }
    Locator::ByCss(s)
}

/// Law (locator priority): an element with a non-empty id attribute
/// that matched exactly one element is always resolved by the identity
/// tier, whatever else was observed of it.
pub proof fn lemma_locator_priority(info: ElementInfoV)
    requires
        info.id_attr is Some,
        (info.id_attr->Some_0).len() > 0,
        info.id_match_count == 1,
    ensures
        choose_locator_spec(info) == LocatorV::ById(info.id_attr->Some_0),
{
}

/// Law (fallback correctness): an element with no usable id or name
/// attribute and no structural path that matched still gets a locator —
/// the positional fallback, never nothing.
pub proof fn lemma_fallback_correctness(info: ElementInfoV)
    requires
        info.id_attr is None || (info.id_attr->Some_0).len() == 0 || info.id_match_count != 1,
        info.name_attr is None || (info.name_attr->Some_0).len() == 0
            || info.name_match_count != 1,
        info.js_path is None || info.path_match_count == 0,
    ensures
        choose_locator_spec(info) == LocatorV::ByCss(
            positional_spec(lower_all(info.tag_name), info.index),
        ),
{
}

/// The keys of a resolved element map.
pub open spec fn keys_of(entries: Seq<(Seq<char>, LocatorV)>) -> Seq<Seq<char>> {
    entries.map_values(|e: (Seq<char>, LocatorV)| e.0)
}

/// The key candidate with collision suffix `j`: the base itself for
/// zero, else the base with an underscore and the decimal of `j`.
pub open spec fn cand(base: Seq<char>, j: nat) -> Seq<char> {
    if j == 0 {
        base
    } else {
        base + "_"@ + dec_of(j)
    }
}

/// The key assigned against earlier keys: the first candidate, in
/// suffix order, that no earlier entry holds.
pub open spec fn assigned_key(prev: Seq<Seq<char>>, base: Seq<char>, key: Seq<char>) -> bool {
    exists|j: nat|
        {
            &&& key == cand(base, j)
            &&& !prev.contains(cand(base, j))
            &&& forall|j2: nat| j2 < j ==> prev.contains(cand(base, j2))
        }
}

proof fn lemma_cand_injective(base: Seq<char>, i: nat, j: nat)
    requires
        cand(base, i) == cand(base, j),
    ensures
        i == j,
{
    lemma_dec_of_len(i);
    lemma_dec_of_len(j);
    if i == 0 && j != 0 {
        assert(cand(base, j).len() > base.len());
    } else if i != 0 && j == 0 {
        assert(cand(base, i).len() > base.len());
    } else if i != 0 && j != 0 {
        let pi = base + "_"@ + dec_of(i);
        let pj = base + "_"@ + dec_of(j);
        assert(dec_of(i) =~= pi.subrange((base.len() + "_"@.len()) as int, pi.len() as int));
        assert(dec_of(j) =~= pj.subrange((base.len() + "_"@.len()) as int, pj.len() as int));
        lemma_dec_of_injective(i, j);
    }
}

fn contains_key(entries: &Vec<(String, Locator)>, key: &str) -> (r: bool)
    ensures
        r == keys_of(entries.deep_view()).contains(key@),
{
    let n = entries.len();
    let mut i: usize = 0;
    while i < n
        invariant
            0 <= i <= n,
            n == entries@.len(),
            forall|j: int| 0 <= j < i ==> keys_of(entries.deep_view())[j] != key@,
        decreases n - i,
    {
        proof {
            assert(keys_of(entries.deep_view())[i as int] == entries@[i as int].0@);
        }
        if str_eq(entries[i].0.as_str(), key) {
            proof {
                assert(keys_of(entries.deep_view())[i as int] == key@);
            }
            return true;
        }
        i = i + 1;
    }
    proof {
        if keys_of(entries.deep_view()).contains(key@) {
            let w = choose|k: int|
                0 <= k < keys_of(entries.deep_view()).len() && keys_of(entries.deep_view())[k]
                    == key@;
            assert(false);
        }
    }
    false
}

fn candidate_key(base: &str, j: u64) -> (r: String)
    ensures
        r@ == cand(base@, j as nat),
{
    if j == 0 {
        base.to_owned()
    } else {
        let mut s = base.to_owned();
        s.append("_");
        let num = to_decimal(j);
        s.append(num.as_str());
        s
    }
}

/// Resolve a key collision: the first free candidate in suffix order.
/// Among the first `n + 1` candidates over `n` earlier keys one is
/// always free, so the search ends.
pub fn unique_key(entries: &Vec<(String, Locator)>, base: &str) -> (r: String)
    requires
        entries@.len() < u64::MAX - 1,
    ensures
        assigned_key(keys_of(entries.deep_view()), base@, r@),
        !keys_of(entries.deep_view()).contains(r@),
{
    let ghost keys = keys_of(entries.deep_view());
    let n = entries.len();
    let mut j: u64 = 0;
    while j <= n as u64
        invariant
            0 <= j <= n + 1,
            n == entries@.len(),
            n < u64::MAX - 1,
            keys == keys_of(entries.deep_view()),
            keys.len() == n,
            forall|j2: nat| j2 < j ==> keys.contains(cand(base@, j2)),
        decreases n + 1 - j,
    {
        let c = candidate_key(base, j);
        if !contains_key(entries, c.as_str()) {
            proof {
                assert(cand(base@, j as nat) == c@);
            }
            return c;
        }
        j = j + 1;
    }
    // Unreachable: n + 1 distinct candidates cannot all stand among n keys.
    proof {
        let cands = Seq::<Seq<char>>::new((n + 1) as nat, |k: int| cand(base@, k as nat));
        assert forall|x: int, y: int|
            0 <= x < cands.len() && 0 <= y < cands.len() && x != y implies cands[x] != cands[y] by {
            if cands[x] == cands[y] {
                lemma_cand_injective(base@, x as nat, y as nat);
            }
        }
        assert(cands.no_duplicates());
        cands.unique_seq_to_set();
        keys.lemma_cardinality_of_set();
        assert forall|x: Seq<char>| cands.to_set().contains(x) implies keys.to_set().contains(
            x,
        ) by {
            let k = choose|k: int| 0 <= k < cands.len() && cands[k] == x;
            assert(keys.contains(cand(base@, k as nat)));
        }
        lemma_len_subset(cands.to_set(), keys.to_set());
        assert(false);
    }
    base.to_owned()
}

/// Only the currently displayed elements take part in resolution.
pub open spec fn displayed_of(infos: Seq<ElementInfoV>) -> Seq<ElementInfoV> {
    infos.filter(|i: ElementInfoV| i.displayed)
}

/// The resolver's guarantee for one map entry: the locator follows the
/// priority chain for the matching displayed element, and the key is
/// that element's sanitized key, suffixed just enough to clear every
/// earlier key.
pub open spec fn entry_resolved(
    entries: Seq<(Seq<char>, LocatorV)>,
    shown: Seq<ElementInfoV>,
    k: int,
) -> bool {
    &&& entries[k].1 == choose_locator_spec(shown[k])
    &&& assigned_key(
        keys_of(entries.subrange(0, k)),
        element_key_spec(lower_all(shown[k].tag_name), shown[k].text, shown[k].index),
        entries[k].0,
    )
}

/// Resolve every displayed element into the element map: one entry per
/// displayed element, in scan order, no two entries sharing a key.
pub fn resolve_elements(infos: &Vec<ElementInfo>) -> (r: Vec<(String, Locator)>)
    requires
        infos@.len() < u64::MAX - 1,
        forall|k: int| 0 <= k < infos@.len() ==> (#[trigger] infos@[k]).index < u64::MAX,
    ensures
        r.deep_view().len() == displayed_of(infos.deep_view()).len(),
        forall|k: int|
            0 <= k < r.deep_view().len() ==> entry_resolved(
                r.deep_view(),
                displayed_of(infos.deep_view()),
                k,
            ),
        // no two entries share a key
        forall|i: int, j: int|
            0 <= i < j < r.deep_view().len() ==> r.deep_view()[i].0 != r.deep_view()[j].0,
{
    let n = infos.len();
    let mut out: Vec<(String, Locator)> = Vec::new();
    let mut i: usize = 0;
    proof {
        assert(infos.deep_view().subrange(0, 0) =~= Seq::<ElementInfoV>::empty());
        reveal(Seq::filter);
        assert(displayed_of(infos.deep_view().subrange(0, 0)) =~= Seq::<ElementInfoV>::empty());
        assert(out.deep_view() =~= Seq::<(Seq<char>, LocatorV)>::empty());
    }
    while i < n
        invariant
            0 <= i <= n,
            n == infos@.len(),
            n < u64::MAX - 1,
            forall|k: int| 0 <= k < infos@.len() ==> (#[trigger] infos@[k]).index < u64::MAX,
            out.deep_view().len() == displayed_of(
                infos.deep_view().subrange(0, i as int),
            ).len(),
            forall|k: int|
                0 <= k < out.deep_view().len() ==> entry_resolved(
                    out.deep_view(),
                    displayed_of(infos.deep_view().subrange(0, i as int)),
                    k,
                ),
            forall|a: int, b: int|
                0 <= a < b < out.deep_view().len() ==> out.deep_view()[a].0
                    != out.deep_view()[b].0,
        decreases n - i,
    {
        let ghost pre = displayed_of(infos.deep_view().subrange(0, i as int));
        proof {
            let dv = infos.deep_view();
            assert(dv.subrange(0, i + 1) =~= dv.subrange(0, i as int).push(dv[i as int]));
            let p = |e: ElementInfoV| e.displayed;
            let ext = dv.subrange(0, i as int).push(dv[i as int]);
            reveal(Seq::filter);
            assert(ext.drop_last() =~= dv.subrange(0, i as int));
            if p(dv[i as int]) {
                assert(displayed_of(dv.subrange(0, i + 1)) =~= pre.push(dv[i as int]));
            } else {
                assert(displayed_of(dv.subrange(0, i + 1)) =~= pre);
            }
            assert(dv[i as int] == infos@[i as int]@);
        }
        if infos[i].displayed {
            let tag_l = to_lowercase_ascii(infos[i].tag_name.as_str());
            let base = element_key(tag_l.as_str(), infos[i].text.as_str(), infos[i].index);
            let key = unique_key(&out, base.as_str());
            let loc = choose_locator(&infos[i]);
            let ghost out_before = out.deep_view();
            let entry = (key, loc);
            proof {
                assert(entry.deep_view() == (entry.0@, entry.1@));
            }
            out.push(entry);
            proof {
                let dv = infos.deep_view();
                assert(out.deep_view() =~= out_before.push((entry.0@, entry.1@)));
                let now = displayed_of(dv.subrange(0, i + 1));
                assert(now =~= pre.push(dv[i as int]));
                assert(out.deep_view().subrange(0, out_before.len() as int) =~= out_before);
                assert forall|k: int|
                    0 <= k < out.deep_view().len() implies entry_resolved(
                    out.deep_view(),
                    now,
                    k,
                ) by {
                    if k < out_before.len() {
                        assert(entry_resolved(out_before, pre, k));
                        assert(out.deep_view()[k] == out_before[k]);
                        assert(now[k] == pre[k]);
                        assert(out.deep_view().subrange(0, k) =~= out_before.subrange(0, k));
                        assert(keys_of(out.deep_view().subrange(0, k)) =~= keys_of(
                            out_before.subrange(0, k),
                        ));
                    } else {
                        assert(k == out_before.len());
                        assert(now[k] == dv[i as int]);
                        assert(out.deep_view()[k] == (entry.0@, entry.1@));
                    }
                }
                assert forall|a: int, b: int|
                    0 <= a < b < out.deep_view().len() implies out.deep_view()[a].0
                    != out.deep_view()[b].0 by {
                    if b == out_before.len() {
                        assert(keys_of(out_before)[a] == out_before[a].0);
                        assert(!keys_of(out_before).contains(entry.0@));
                        if out_before[a].0 == entry.0@ {
                            assert(keys_of(out_before).contains(entry.0@));
                        }
                    }
                }
            }
        }
        i = i + 1;
    }
    proof {
        assert(infos.deep_view().subrange(0, n as int) =~= infos.deep_view());
    }
    out
}

/// The rendering of the whole element map for the prompt: one line per
/// entry, key, colon, locator.
pub open spec fn entry_line(e: (Seq<char>, LocatorV)) -> Seq<char> {
    e.0 + ": "@ + locator_text(e.1)
}

/// What the prompt says about the page's interactive elements.
pub open spec fn elements_text_spec(entries: Seq<(Seq<char>, LocatorV)>) -> Seq<char> {
    if entries.len() == 0 {
        "No interactive elements found."@
    } else {
        join_with(entries.map_values(|e: (Seq<char>, LocatorV)| entry_line(e)), "\n"@)
    }
}

/// Render the element map for the prompt.
pub fn elements_text(entries: &Vec<(String, Locator)>) -> (r: String)
    ensures
        r@ == elements_text_spec(entries.deep_view()),
{
    let n = entries.len();
    if n == 0 {
        return String::from_str("No interactive elements found.");
    }
    let mut lines: Vec<String> = Vec::new();
    let mut i: usize = 0;
    proof {
        assert(lines@.map_values(|w: String| w@) =~= entries.deep_view().subrange(
            0,
            0,
        ).map_values(|e: (Seq<char>, LocatorV)| entry_line(e)));
    }
    while i < n
        invariant
            0 <= i <= n,
            n == entries@.len(),
            lines@.map_values(|w: String| w@) == entries.deep_view().subrange(
                0,
                i as int,
            ).map_values(|e: (Seq<char>, LocatorV)| entry_line(e)),
        decreases n - i,
    {
        let mut line = entries[i].0.clone();
        line.append(": ");
        let desc = entries[i].1.describe();
        line.append(desc.as_str());
        proof {
            let dv = entries.deep_view();
            assert(dv[i as int] == (entries@[i as int].0@, entries@[i as int].1@));
            assert(line@ == entry_line(dv[i as int]));
            assert(dv.subrange(0, i + 1) =~= dv.subrange(0, i as int).push(dv[i as int]));
            assert(dv.subrange(0, i + 1).map_values(|e: (Seq<char>, LocatorV)| entry_line(e))
                =~= dv.subrange(0, i as int).map_values(
                |e: (Seq<char>, LocatorV)| entry_line(e),
            ).push(entry_line(dv[i as int])));
            assert((lines@ + seq![line]).map_values(|w: String| w@) =~= lines@.map_values(
                |w: String| w@,
            ).push(line@));
        }
        lines.push(line);
        i = i + 1;
    }
    proof {
        assert(entries.deep_view().subrange(0, n as int) =~= entries.deep_view());
    }
    join_strings(&lines, "\n")
}

} // verus!
