//! Character and string helpers shared by the locator resolver and the
//! step engine: ASCII classification, key sanitization, trimming,
//! word splitting, joining, pattern removal and line splitting.

use vstd::prelude::*;
use vstd::string::StrSliceExecFns;
use vstd::string::StringExecFns;

verus! {

/// Relies on String::push: appends the given character to the end of the string.
#[verifier::external_body]
pub(crate) fn push_char(s: &mut String, c: char)
    ensures
        final(s)@ == old(s)@ + seq![c],
{
    s.push(c);
}

/// ASCII whitespace: space, tab, line feed, form feed, carriage return.
pub open spec fn is_space(c: char) -> bool {
    c == ' ' || c == '\t' || c == '\n' || c == '\x0C' || c == '\r'
}

pub fn is_space_exec(c: char) -> (r: bool)
    ensures
        r == is_space(c),
{
    c == ' ' || c == '\t' || c == '\n' || c == '\x0C' || c == '\r'
}

/// A character admitted into a sanitized element key:
/// lowercase ASCII letter, ASCII digit or underscore.
pub open spec fn is_key_char(c: char) -> bool {
    ('a' as u32 <= c as u32 && c as u32 <= 'z' as u32) || ('0' as u32 <= c as u32 && c as u32
        <= '9' as u32) || c == '_'
}

pub fn is_key_char_exec(c: char) -> (r: bool)
    ensures
        r == is_key_char(c),
{
    let u = c as u32;
    ('a' as u32 <= u && u <= 'z' as u32) || ('0' as u32 <= u && u <= '9' as u32) || c == '_'
}

/// Lowercasing of one character, for ASCII letters only; every other
/// character is left as it is.
pub open spec fn lower_char(c: char) -> char {
    if 'A' as u32 <= c as u32 && c as u32 <= 'Z' as u32 {
        ((c as u32 + 32) as u8) as char
    } else {
        c
    }
}

pub fn lower_char_exec(c: char) -> (r: char)
    ensures
        r == lower_char(c),
{
    let u = c as u32;
    if 'A' as u32 <= u && u <= 'Z' as u32 {
        ((u + 32) as u8) as char
    } else {
        c
    }
}

/// ASCII lowercasing of each character with every character that is not a
/// lowercase letter, digit or underscore dropped: the first stage of key
/// sanitization.
pub open spec fn sanitize_chars(s: Seq<char>) -> Seq<char>
    decreases s.len(),
{
    if s.len() == 0 {
        Seq::empty()
    } else {
        let c = lower_char(s[0]);
        let rest = sanitize_chars(s.drop_first());
        if is_key_char(c) {
            seq![c] + rest
        } else {
            rest
        }
    }
}

/// Runs of consecutive underscores shortened to a single underscore.
pub open spec fn collapse_underscores(s: Seq<char>) -> Seq<char>
    decreases s.len(),
{
    if s.len() <= 1 {
        s
    } else if s[0] == '_' && s[1] == '_' {
        collapse_underscores(s.drop_first())
    } else {
        seq![s[0]] + collapse_underscores(s.drop_first())
    }
}

/// Leading characters satisfying `p` removed.
pub open spec fn trim_lead(s: Seq<char>, p: spec_fn(char) -> bool) -> Seq<char>
    decreases s.len(),
{
    if s.len() > 0 && p(s[0]) {
        trim_lead(s.drop_first(), p)
    } else {
        s
    }
}

/// Trailing characters satisfying `p` removed.
pub open spec fn trim_trail(s: Seq<char>, p: spec_fn(char) -> bool) -> Seq<char>
    decreases s.len(),
{
    if s.len() > 0 && p(s.last()) {
        trim_trail(s.drop_last(), p)
    } else {
        s
    }
}

/// Characters satisfying `p` removed from both ends.
pub open spec fn trimmed(s: Seq<char>, p: spec_fn(char) -> bool) -> Seq<char> {
    trim_trail(trim_lead(s, p), p)
}

pub proof fn lemma_trim_lead_at(s: Seq<char>, p: spec_fn(char) -> bool, a: int)
    requires
        0 <= a <= s.len(),
        forall|j: int| 0 <= j < a ==> p(s[j]),
        a < s.len() ==> !p(s[a]),
    ensures
        trim_lead(s, p) == s.subrange(a, s.len() as int),
    decreases a,
{
    if a == 0 {
        if s.len() > 0 && p(s[0]) {
            assert(false);
        }
        assert(s.subrange(0, s.len() as int) =~= s);
    } else {
        let t = s.drop_first();
        lemma_trim_lead_at(t, p, a - 1);
        assert(t.subrange(a - 1, t.len() as int) =~= s.subrange(a, s.len() as int));
    }
}

pub proof fn lemma_trim_trail_at(s: Seq<char>, p: spec_fn(char) -> bool, b: int)
    requires
        0 <= b <= s.len(),
        forall|j: int| b <= j < s.len() ==> p(s[j]),
        b > 0 ==> !p(s[b - 1]),
    ensures
        trim_trail(s, p) == s.subrange(0, b),
    decreases s.len(),
{
    if b == s.len() {
        if s.len() > 0 && p(s.last()) {
            assert(false);
        }
        assert(s.subrange(0, s.len() as int) =~= s);
    } else {
        let t = s.drop_last();
        lemma_trim_trail_at(t, p, b);
        assert(t.subrange(0, b) =~= s.subrange(0, b));
    }
}

/// Whitespace removed from both ends.
pub open spec fn trim_spaces_spec(s: Seq<char>) -> Seq<char> {
    trimmed(s, |c: char| is_space(c))
}

/// Whitespace trimmed from both ends of a string.
pub fn trim_spaces(s: &str) -> (r: String)
    ensures
        r@ == trim_spaces_spec(s@),
{
    let n = s.unicode_len();
    let mut a: usize = 0;
    while a < n && is_space_exec(s.get_char(a))
        invariant
            0 <= a <= n,
            n == s@.len(),
            forall|j: int| 0 <= j < a ==> is_space(s@[j]),
        decreases n - a,
    {
        a = a + 1;
    }
    proof {
        lemma_trim_lead_at(s@, |c: char| is_space(c), a as int);
    }
    if a == n {
        proof {
            assert(trim_lead(s@, |c: char| is_space(c)) =~= Seq::<char>::empty());
        }
        return String::new();
    }
    let mut b: usize = n;
    while b > a + 1 && is_space_exec(s.get_char(b - 1))
        invariant
            a < b <= n,
            n == s@.len(),
            forall|j: int| b <= j < n ==> is_space(s@[j]),
        decreases b,
    {
        b = b - 1;
    }
    proof {
        let lead = s@.subrange(a as int, n as int);
        assert(!is_space(s@[a as int]));
        assert(!is_space(s@[b - 1]));
        assert(forall|j: int| b - a <= j < lead.len() ==> is_space(lead[j]));
        assert(!is_space(lead[b - a - 1]));
        lemma_trim_trail_at(lead, |c: char| is_space(c), b - a);
        assert(lead.subrange(0, b - a) =~= s@.subrange(a as int, b as int));
    }
    let piece = s.substring_char(a, b);
    piece.to_owned()
}

/// Lowercase, drop foreign characters, shorten underscore runs and trim
/// underscores from the ends: the whole sanitization of an element key,
/// before the empty-key fallback.
pub open spec fn sanitized(s: Seq<char>) -> Seq<char> {
    trimmed(collapse_underscores(sanitize_chars(s)), |c: char| c == '_')
}

fn sanitize_pass(s: &str) -> (r: Vec<char>)
    ensures
        r@ == sanitize_chars(s@),
{
    let n = s.unicode_len();
    let mut out: Vec<char> = Vec::new();
    let mut i: usize = 0;
    proof {
        assert(s@.subrange(0, n as int) =~= s@);
    }
    while i < n
        invariant
            0 <= i <= n,
            n == s@.len(),
            sanitize_chars(s@) == out@ + sanitize_chars(s@.subrange(i as int, n as int)),
        decreases n - i,
    {
        let c = lower_char_exec(s.get_char(i));
        proof {
            let rest = s@.subrange(i as int, n as int);
            assert(rest.drop_first() =~= s@.subrange(i + 1, n as int));
            assert(rest[0] == s@[i as int]);
        }
        if is_key_char_exec(c) {
            out.push(c);
        }
        i = i + 1;
    }
    proof {
        assert(s@.subrange(n as int, n as int) =~= Seq::<char>::empty());
        assert(out@ =~= sanitize_chars(s@));
    }
    out
}

fn collapse_pass(v: &Vec<char>) -> (r: Vec<char>)
    ensures
        r@ == collapse_underscores(v@),
{
    let n = v.len();
    let mut out: Vec<char> = Vec::new();
    let mut i: usize = 0;
    proof {
        assert(v@.subrange(0, n as int) =~= v@);
    }
    while i < n
        invariant
            0 <= i <= n,
            n == v@.len(),
            collapse_underscores(v@) == out@ + collapse_underscores(
                v@.subrange(i as int, n as int),
            ),
        decreases n - i,
    {
        let c = v[i];
        proof {
            let rest = v@.subrange(i as int, n as int);
            assert(rest.drop_first() =~= v@.subrange(i + 1, n as int));
            assert(rest[0] == v@[i as int]);
            if rest.len() > 1 {
                assert(rest[1] == v@[i + 1]);
            }
        }
        if c == '_' && i + 1 < n && v[i + 1] == '_' {
            // dropped: the next underscore stands for the whole run
        } else {
            out.push(c);
        }
        i = i + 1;
    }
    proof {
        assert(v@.subrange(n as int, n as int) =~= Seq::<char>::empty());
        assert(out@ =~= collapse_underscores(v@));
    }
    out
}

/// The full sanitization pipeline over a raw key.
pub fn sanitize_text(s: &str) -> (r: String)
    ensures
        r@ == sanitized(s@),
{
    let filtered = sanitize_pass(s);
    let collapsed = collapse_pass(&filtered);
    let n = collapsed.len();
    let mut a: usize = 0;
    while a < n && collapsed[a] == '_'
        invariant
            0 <= a <= n,
            n == collapsed@.len(),
            forall|j: int| 0 <= j < a ==> collapsed@[j] == '_',
        decreases n - a,
    {
        a = a + 1;
    }
    proof {
        lemma_trim_lead_at(collapsed@, |c: char| c == '_', a as int);
    }
    let mut out = String::new();
    if a == n {
        proof {
            assert(trim_lead(collapsed@, |c: char| c == '_') =~= Seq::<char>::empty());
        }
        return out;
    }
    let mut b: usize = n;
    while b > a + 1 && collapsed[b - 1] == '_'
        invariant
            a < b <= n,
            n == collapsed@.len(),
            forall|j: int| b <= j < n ==> collapsed@[j] == '_',
        decreases b,
    {
        b = b - 1;
    }
    proof {
        let lead = collapsed@.subrange(a as int, n as int);
        assert(collapsed@[a as int] != '_');
        assert(collapsed@[b - 1] != '_');
        assert(forall|j: int| b - a <= j < lead.len() ==> lead[j] == '_');
        assert(lead[b - a - 1] != '_');
        lemma_trim_trail_at(lead, |c: char| c == '_', b - a);
        assert(lead.subrange(0, b - a) =~= collapsed@.subrange(a as int, b as int));
    }
    let mut i: usize = a;
    while i < b
        invariant
            a <= i <= b <= n,
            n == collapsed@.len(),
            out@ == collapsed@.subrange(a as int, i as int),
        decreases b - i,
    {
        push_char(&mut out, collapsed[i]);
        proof {
            assert(collapsed@.subrange(a as int, i + 1) =~= collapsed@.subrange(a as int, i as int)
                + seq![collapsed@[i as int]]);
        }
        i = i + 1;
    }
    out
}

/// How many leading characters satisfy `p`.
pub open spec fn prefix_len(s: Seq<char>, p: spec_fn(char) -> bool) -> nat
    decreases s.len(),
{
    if s.len() > 0 && p(s[0]) {
        1 + prefix_len(s.drop_first(), p)
    } else {
        0
    }
}

pub proof fn lemma_prefix_len_le(s: Seq<char>, p: spec_fn(char) -> bool)
    ensures
        prefix_len(s, p) <= s.len(),
    decreases s.len(),
{
    if s.len() > 0 && p(s[0]) {
        lemma_prefix_len_le(s.drop_first(), p);
    }
}

pub proof fn lemma_prefix_len_at(s: Seq<char>, p: spec_fn(char) -> bool, k: int)
    requires
        0 <= k <= s.len(),
        forall|j: int| 0 <= j < k ==> p(s[j]),
        k < s.len() ==> !p(s[k]),
    ensures
        prefix_len(s, p) == k,
    decreases k,
{
    if k == 0 {
    } else {
        let t = s.drop_first();
        lemma_prefix_len_at(t, p, k - 1);
    }
}

/// Whether the character may stand inside a word: anything but whitespace.
pub open spec fn non_space(c: char) -> bool {
    !is_space(c)
}

/// The whitespace-separated words of a text, in order.
pub open spec fn words_of(s: Seq<char>) -> Seq<Seq<char>>
    decreases s.len(),
    via words_of_decreases
{
    if s.len() == 0 {
        seq![]
    } else if is_space(s[0]) {
        words_of(s.drop_first())
    } else {
        let k = prefix_len(s, |c: char| non_space(c)) as int;
        seq![s.subrange(0, k)] + words_of(s.subrange(k, s.len() as int))
    }
}

#[via_fn]
proof fn words_of_decreases(s: Seq<char>) {
    if s.len() > 0 && !is_space(s[0]) {
        lemma_prefix_len_le(s, |c: char| non_space(c));
    }
}

/// The words of a string, each as its own string, in order.
pub fn split_words(s: &str) -> (r: Vec<String>)
    ensures
        r@.map_values(|w: String| w@) == words_of(s@),
{
    let n = s.unicode_len();
    let mut out: Vec<String> = Vec::new();
    let mut i: usize = 0;
    proof {
        assert(s@.subrange(0, n as int) =~= s@);
        assert(out@.map_values(|w: String| w@) + words_of(s@) =~= words_of(s@));
    }
    while i < n
        invariant
            0 <= i <= n,
            n == s@.len(),
            words_of(s@) == out@.map_values(|w: String| w@) + words_of(
                s@.subrange(i as int, n as int),
            ),
        decreases n - i,
    {
        if is_space_exec(s.get_char(i)) {
            proof {
                let rest = s@.subrange(i as int, n as int);
                assert(rest[0] == s@[i as int]);
                assert(rest.drop_first() =~= s@.subrange(i + 1, n as int));
            }
            i = i + 1;
        } else {
            let start = i;
            let mut j = i + 1;
            while j < n && !is_space_exec(s.get_char(j))
                invariant
                    start < j <= n,
                    n == s@.len(),
                    forall|t: int| start <= t < j ==> !is_space(s@[t]),
                decreases n - j,
            {
                j = j + 1;
            }
            let word = s.substring_char(start, j).to_owned();
            proof {
                let rest = s@.subrange(start as int, n as int);
                assert(forall|t: int|
                    0 <= t < j - start ==> rest[t] == s@[start + t] && !is_space(rest[t]));
                if j < n {
                    assert(rest[j - start] == s@[j as int]);
                }
                lemma_prefix_len_at(rest, |c: char| non_space(c), j - start);
                assert(rest.subrange(0, j - start) =~= s@.subrange(start as int, j as int));
                assert(rest.subrange(j - start, rest.len() as int) =~= s@.subrange(
                    j as int,
                    n as int,
                ));
                assert(words_of(rest) == seq![word@] + words_of(s@.subrange(j as int, n as int)));
                let before = out@.map_values(|w: String| w@);
                assert((out@ + seq![word]).map_values(|w: String| w@) =~= before + seq![word@]);
                assert(before + (seq![word@] + words_of(s@.subrange(j as int, n as int))) =~= (
                before + seq![word@]) + words_of(s@.subrange(j as int, n as int)));
            }
            out.push(word);
            i = j;
        }
    }
    proof {
        assert(s@.subrange(n as int, n as int) =~= Seq::<char>::empty());
        assert(out@.map_values(|w: String| w@) + words_of(Seq::<char>::empty())
            =~= out@.map_values(|w: String| w@));
    }
    out
}

/// The parts joined with the separator between neighbours.
pub open spec fn join_with(parts: Seq<Seq<char>>, sep: Seq<char>) -> Seq<char>
    decreases parts.len(),
{
    if parts.len() == 0 {
        Seq::empty()
    } else if parts.len() == 1 {
        parts[0]
    } else {
        parts[0] + sep + join_with(parts.drop_first(), sep)
    }
}

pub proof fn lemma_join_push(parts: Seq<Seq<char>>, sep: Seq<char>, w: Seq<char>)
    ensures
        parts.len() == 0 ==> join_with(parts.push(w), sep) == w,
        parts.len() > 0 ==> join_with(parts.push(w), sep) == join_with(parts, sep) + sep + w,
    decreases parts.len(),
{
    if parts.len() == 0 {
        assert(parts.push(w)[0] == w);
    } else if parts.len() == 1 {
        assert(parts.push(w).drop_first() =~= seq![w]);
        assert(parts.push(w)[0] == parts[0]);
        assert(join_with(seq![w], sep) == seq![w][0]);
        assert(join_with(parts.push(w), sep) =~= join_with(parts, sep) + sep + w);
    } else {
        lemma_join_push(parts.drop_first(), sep, w);
        assert(parts.push(w).drop_first() =~= parts.drop_first().push(w));
        assert(parts.push(w)[0] == parts[0]);
        assert(parts[0] + sep + (join_with(parts.drop_first(), sep) + sep + w) =~= (parts[0] + sep
            + join_with(parts.drop_first(), sep)) + sep + w);
    }
}

/// The strings joined with the separator between neighbours.
pub fn join_strings(parts: &Vec<String>, sep: &str) -> (r: String)
    ensures
        r@ == join_with(parts@.map_values(|w: String| w@), sep@),
{
    let mut out = String::new();
    let mut i: usize = 0;
    let n = parts.len();
    while i < n
        invariant
            0 <= i <= n,
            n == parts@.len(),
            out@ == join_with(parts@.map_values(|w: String| w@).subrange(0, i as int), sep@),
        decreases n - i,
    {
        proof {
            let views = parts@.map_values(|w: String| w@);
            assert(views.subrange(0, i + 1) =~= views.subrange(0, i as int).push(
                views[i as int],
            ));
            lemma_join_push(views.subrange(0, i as int), sep@, views[i as int]);
        }
        if i > 0 {
            out.append(sep);
        }
        out.append(parts[i].as_str());
        i = i + 1;
    }
    proof {
        let views = parts@.map_values(|w: String| w@);
        assert(views.subrange(0, n as int) =~= views);
    }
    out
}

/// Every ASCII uppercase letter lowered, other characters kept.
pub open spec fn lower_all(s: Seq<char>) -> Seq<char> {
    s.map_values(|c: char| lower_char(c))
}

/// ASCII lowercasing of a whole string.
pub fn to_lowercase_ascii(s: &str) -> (r: String)
    ensures
        r@ == lower_all(s@),
{
    let n = s.unicode_len();
    let mut out = String::new();
    let mut i: usize = 0;
    proof {
        assert(out@ =~= lower_all(s@.subrange(0, 0)));
    }
    while i < n
        invariant
            0 <= i <= n,
            n == s@.len(),
            out@ == lower_all(s@.subrange(0, i as int)),
        decreases n - i,
    {
        let c = lower_char_exec(s.get_char(i));
        push_char(&mut out, c);
        proof {
            assert(lower_all(s@.subrange(0, i + 1)) =~= lower_all(s@.subrange(0, i as int)).push(
                lower_char(s@[i as int]),
            ));
        }
        i = i + 1;
    }
    proof {
        assert(s@.subrange(0, n as int) =~= s@);
    }
    out
}

/// Whether two strings hold the same characters.
pub fn str_eq(a: &str, b: &str) -> (r: bool)
    ensures
        r == (a@ == b@),
{
    let na = a.unicode_len();
    let nb = b.unicode_len();
    if na != nb {
        return false;
    }
    let mut i: usize = 0;
    while i < na
        invariant
            0 <= i <= na,
            na == a@.len(),
            na == b@.len(),
            forall|j: int| 0 <= j < i ==> a@[j] == b@[j],
        decreases na - i,
    {
        if a.get_char(i) != b.get_char(i) {
            return false;
        }
        i = i + 1;
    }
    proof {
        assert(a@ =~= b@);
    }
    true
}

/// Whether the pattern stands in `s` at position `i`.
pub open spec fn match_at(s: Seq<char>, pat: Seq<char>, i: int) -> bool {
    0 <= i && i + pat.len() <= s.len() && s.subrange(i, i + pat.len() as int) == pat
}

/// Whether the pattern stands in `s` at position `i`.
pub fn match_at_exec(s: &str, pat: &str, i: usize) -> (r: bool)
    requires
        i <= s@.len(),
    ensures
        r == match_at(s@, pat@, i as int),
{
    let n = s.unicode_len();
    let m = pat.unicode_len();
    if m > n - i {
        return false;
    }
    let mut j: usize = 0;
    while j < m
        invariant
            0 <= j <= m,
            n == s@.len(),
            m == pat@.len(),
            i + m <= n,
            forall|t: int| 0 <= t < j ==> s@[i + t] == pat@[t],
        decreases m - j,
    {
        if s.get_char(i + j) != pat.get_char(j) {
            assert(s@.subrange(i as int, i + m) != pat@) by {
                assert(s@.subrange(i as int, i + m)[j as int] == s@[i + j]);
            }
            return false;
        }
        j = j + 1;
    }
    proof {
        assert(s@.subrange(i as int, i + m) =~= pat@);
    }
    true
}

/// Every occurrence of `pat` replaced by `rep`, scanning once from the
/// left without overlap.
pub open spec fn replace_all(s: Seq<char>, pat: Seq<char>, rep: Seq<char>) -> Seq<char>
    recommends
        pat.len() >= 1,
    decreases s.len(),
{
    if pat.len() == 0 {
        s
    } else if s.len() < pat.len() {
        s
    } else if match_at(s, pat, 0) {
        rep + replace_all(s.subrange(pat.len() as int, s.len() as int), pat, rep)
    } else {
        seq![s[0]] + replace_all(s.drop_first(), pat, rep)
    }
}

/// Every occurrence of the pattern replaced by `rep`.
pub fn replace_str(s: &str, pat: &str, rep: &str) -> (r: String)
    requires
        pat@.len() >= 1,
    ensures
        r@ == replace_all(s@, pat@, rep@),
{
    let n = s.unicode_len();
    let m = pat.unicode_len();
    let mut out = String::new();
    let mut i: usize = 0;
    proof {
        assert(s@.subrange(0, n as int) =~= s@);
    }
    while i < n
        invariant
            0 <= i <= n,
            n == s@.len(),
            m == pat@.len(),
            m >= 1,
            replace_all(s@, pat@, rep@) == out@ + replace_all(
                s@.subrange(i as int, n as int),
                pat@,
                rep@,
            ),
        decreases n - i,
    {
        let rest_matches = match_at_exec(s, pat, i);
        proof {
            let rest = s@.subrange(i as int, n as int);
            if i + m <= n {
                assert(rest.subrange(0, m as int) =~= s@.subrange(i as int, i + m));
            }
            assert(match_at(rest, pat@, 0) == match_at(s@, pat@, i as int));
            assert(rest[0] == s@[i as int]);
            assert(rest.drop_first() =~= s@.subrange(i + 1, n as int));
            if i + m <= n {
                assert(rest.subrange(m as int, rest.len() as int) =~= s@.subrange(
                    i + m,
                    n as int,
                ));
            }
        }
        if rest_matches {
            out.append(rep);
            i = i + m;
        } else {
            push_char(&mut out, s.get_char(i));
            i = i + 1;
        }
    }
    proof {
        assert(s@.subrange(n as int, n as int) =~= Seq::<char>::empty());
    }
    out
}

/// Every copy of the pattern standing at the start removed, one after the
/// other.
pub open spec fn strip_prefix_all(s: Seq<char>, pat: Seq<char>) -> Seq<char>
    recommends
        pat.len() >= 1,
    decreases s.len(),
{
    if pat.len() == 0 {
        s
    } else if match_at(s, pat, 0) {
        strip_prefix_all(s.subrange(pat.len() as int, s.len() as int), pat)
    } else {
        s
    }
}

/// Every copy of the pattern standing at the end removed, one after the
/// other.
pub open spec fn strip_suffix_all(s: Seq<char>, pat: Seq<char>) -> Seq<char>
    recommends
        pat.len() >= 1,
    decreases s.len(),
{
    if pat.len() == 0 {
        s
    } else if match_at(s, pat, s.len() - pat.len()) {
        strip_suffix_all(s.subrange(0, s.len() - pat.len()), pat)
    } else {
        s
    }
}

/// Repeated copies of the pattern trimmed from the start.
pub fn trim_start_matches_str(s: &str, pat: &str) -> (r: String)
    requires
        pat@.len() >= 1,
    ensures
        r@ == strip_prefix_all(s@, pat@),
{
    let n = s.unicode_len();
    let m = pat.unicode_len();
    let mut i: usize = 0;
    proof {
        assert(s@.subrange(0, n as int) =~= s@);
    }
    while match_at_exec(s, pat, i)
        invariant
            0 <= i <= n,
            n == s@.len(),
            m == pat@.len(),
            m >= 1,
            strip_prefix_all(s@, pat@) == strip_prefix_all(
                s@.subrange(i as int, n as int),
                pat@,
            ),
        decreases n - i,
    {
        proof {
            let rest = s@.subrange(i as int, n as int);
            assert(rest.subrange(0, m as int) =~= s@.subrange(i as int, i + m));
            assert(rest.subrange(m as int, rest.len() as int) =~= s@.subrange(i + m, n as int));
        }
        i = i + m;
    }
    proof {
        let rest = s@.subrange(i as int, n as int);
        if i + m <= n {
            assert(rest.subrange(0, m as int) =~= s@.subrange(i as int, i + m));
        }
        assert(!match_at(rest, pat@, 0));
    }
    s.substring_char(i, n).to_owned()
}

/// Repeated copies of the pattern trimmed from the end.
pub fn trim_end_matches_str(s: &str, pat: &str) -> (r: String)
    requires
        pat@.len() >= 1,
    ensures
        r@ == strip_suffix_all(s@, pat@),
{
    let n = s.unicode_len();
    let m = pat.unicode_len();
    let mut b: usize = n;
    proof {
        assert(s@.subrange(0, n as int) =~= s@);
    }
    while b >= m && match_at_exec(s, pat, b - m)
        invariant
            0 <= b <= n,
            n == s@.len(),
            m == pat@.len(),
            m >= 1,
            strip_suffix_all(s@, pat@) == strip_suffix_all(s@.subrange(0, b as int), pat@),
        decreases b,
    {
        proof {
            let rest = s@.subrange(0, b as int);
            assert(rest.subrange(b - m, b as int) =~= s@.subrange(b - m, b as int));
            assert(match_at(rest, pat@, b - m));
            assert(rest.subrange(0, b - m) =~= s@.subrange(0, b - m));
        }
        b = b - m;
    }
    proof {
        let rest = s@.subrange(0, b as int);
        if m <= b {
            assert(rest.subrange(b - m, b as int) =~= s@.subrange(b - m, b as int));
        }
        assert(!match_at(rest, pat@, b - m));
    }
    s.substring_char(0, b).to_owned()
}

/// A final carriage return removed, as the line iterator of the standard
/// library does for each line.
pub open spec fn strip_cr(x: Seq<char>) -> Seq<char> {
    if x.len() > 0 && x.last() == '\r' {
        x.drop_last()
    } else {
        x
    }
}

/// Whether the character is not a line break.
pub open spec fn non_newline(c: char) -> bool {
    c != '\n'
}

/// The lines of a text: split on line feeds, a final carriage return
/// removed from each line, no empty final line after a closing line feed.
pub open spec fn lines_of(s: Seq<char>) -> Seq<Seq<char>>
    decreases s.len(),
    via lines_of_decreases
{
    if s.len() == 0 {
        seq![]
    } else {
        let k = prefix_len(s, |c: char| non_newline(c)) as int;
        if k == s.len() {
            seq![strip_cr(s)]
        } else {
            seq![strip_cr(s.subrange(0, k))] + lines_of(s.subrange(k + 1, s.len() as int))
        }
    }
}

#[via_fn]
proof fn lines_of_decreases(s: Seq<char>) {
    if s.len() > 0 {
        lemma_prefix_len_le(s, |c: char| non_newline(c));
    }
}

/// The lines of a string, each as its own string, in order.
pub fn split_lines(s: &str) -> (r: Vec<String>)
    ensures
        r@.map_values(|w: String| w@) == lines_of(s@),
{
    let n = s.unicode_len();
    let mut out: Vec<String> = Vec::new();
    let mut i: usize = 0;
    proof {
        assert(s@.subrange(0, n as int) =~= s@);
        assert(out@.map_values(|w: String| w@) + lines_of(s@) =~= lines_of(s@));
    }
    while i < n
        invariant
            0 <= i <= n,
            n == s@.len(),
            lines_of(s@) == out@.map_values(|w: String| w@) + lines_of(
                s@.subrange(i as int, n as int),
            ),
        decreases n - i,
    {
        let start = i;
        let mut j = i;
        while j < n && s.get_char(j) != '\n'
            invariant
                start <= j <= n,
                n == s@.len(),
                forall|t: int| start <= t < j ==> s@[t] != '\n',
            decreases n - j,
        {
            j = j + 1;
        }
        let piece_end = if j > start && s.get_char(j - 1) == '\r' {
            j - 1
        } else {
            j
        };
        let line = s.substring_char(start, piece_end).to_owned();
        proof {
            let rest = s@.subrange(start as int, n as int);
            assert(forall|t: int| 0 <= t < j - start ==> rest[t] == s@[start + t]);
            if j < n {
                assert(rest[j - start] == s@[j as int]);
            }
            lemma_prefix_len_at(rest, |c: char| non_newline(c), j - start);
            let head = rest.subrange(0, j - start);
            assert(head =~= s@.subrange(start as int, j as int));
            assert(strip_cr(head) =~= s@.subrange(start as int, piece_end as int));
            let before = out@.map_values(|w: String| w@);
            assert((out@ + seq![line]).map_values(|w: String| w@) =~= before + seq![line@]);
            if j == n {
                assert(lines_of(rest) == seq![strip_cr(head)]);
                assert(before + seq![line@] + lines_of(
                    s@.subrange(n as int, n as int),
                ) =~= before + lines_of(rest));
            } else {
                assert(rest.subrange(j - start + 1, rest.len() as int) =~= s@.subrange(
                    j + 1,
                    n as int,
                ));
                assert(lines_of(rest) == seq![strip_cr(head)] + lines_of(
                    s@.subrange(j + 1, n as int),
                ));
                assert(before + (seq![line@] + lines_of(s@.subrange(j + 1, n as int))) =~= (
                before + seq![line@]) + lines_of(s@.subrange(j + 1, n as int)));
            }
        }
        out.push(line);
        i = if j < n {
            j + 1
        } else {
            n
        };
    }
    proof {
        assert(s@.subrange(n as int, n as int) =~= Seq::<char>::empty());
        assert(out@.map_values(|w: String| w@) + lines_of(Seq::<char>::empty())
            =~= out@.map_values(|w: String| w@));
    }
    out
}

} // verus!
