//! The written form of a scenario reference, and the two operations on a
//! script that depend on it: listing the references and replacing them.
//!
//! A script names a scenario by writing `scenario('NAME')`. NAME is every
//! character up to the next single quote and must not be empty; the quote
//! must be followed at once by a closing parenthesis. Anything else, an
//! opener without such an end included, is ordinary script text. A script is
//! read from left to right and a reference, once found, is skipped as a
//! whole, so references never overlap.

use vstd::prelude::*;

verus! {

/// What is taken on trust of `String::push` in the standard library: after
/// the call the string holds what it held before, followed by `c`.
pub assume_specification[ String::push ](text: &mut String, c: char)
    ensures
        final(text)@ == old(text)@.push(c),
;

/// The number of characters in `opener()`.
pub const OPENER_LEN: usize = 10;

/// The longest excerpt that a format failure carries.
pub const EXCERPT_LIMIT: usize = 32;

/// The characters that open a reference.
pub open spec fn opener() -> Seq<char> {
    seq!['s', 'c', 'e', 'n', 'a', 'r', 'i', 'o', '(', '\'']
}

/// The first place at or after `from` where `text` holds `mark`, or the
/// length of `text` where there is none.
pub open spec fn position_from(text: Seq<char>, mark: char, from: int) -> int
    decreases text.len() - from,
{
    if from < 0 || from >= text.len() {
        text.len() as int
    } else if text[from] == mark {
        from
    } else {
        position_from(text, mark, from + 1)
    }
}

/// `position_from` finds the first occurrence and nothing before it.
pub proof fn lemma_position_from(text: Seq<char>, mark: char, from: int)
    requires
        0 <= from <= text.len(),
    ensures
        from <= position_from(text, mark, from) <= text.len(),
        position_from(text, mark, from) < text.len() ==> text[position_from(text, mark, from)]
            == mark,
        forall|k: int| from <= k < position_from(text, mark, from) ==> text[k] != mark,
    decreases text.len() - from,
{
    if from < text.len() && text[from] != mark {
        lemma_position_from(text, mark, from + 1);
    }
}

/// The opener stands in `text` at `at`.
pub open spec fn opens_at(text: Seq<char>, at: int) -> bool {
    &&& 0 <= at
    &&& at + OPENER_LEN <= text.len()
    &&& text.subrange(at, at + OPENER_LEN) == opener()
}

/// Where the quote stands that ends the name of a reference opened at `at`.
pub open spec fn name_end(text: Seq<char>, at: int) -> int {
    position_from(text, '\'', at + OPENER_LEN)
}

/// A reference starts in `text` at `at`.
pub open spec fn reference_at(text: Seq<char>, at: int) -> bool {
    &&& opens_at(text, at)
    &&& at + OPENER_LEN < name_end(text, at)
    &&& name_end(text, at) + 1 < text.len()
    &&& text[name_end(text, at) + 1] == ')'
}

/// The name of the reference that starts at `at`.
pub open spec fn name_at(text: Seq<char>, at: int) -> Seq<char> {
    text.subrange(at + OPENER_LEN, name_end(text, at))
}

/// The first place behind the reference that starts at `at`.
pub open spec fn past_reference(text: Seq<char>, at: int) -> int {
    name_end(text, at) + 2
}

/// The names of the references in `text` from `from` on, in the order in
/// which they are written, each as often as it is written.
pub open spec fn references_from(text: Seq<char>, from: int) -> Seq<Seq<char>>
    decreases text.len() - from,
{
    if from < 0 || from >= text.len() {
        Seq::empty()
    } else if reference_at(text, from) {
        seq![name_at(text, from)] + references_from(text, past_reference(text, from))
    } else {
        references_from(text, from + 1)
    }
}

/// The names of all references in `text`.
pub open spec fn references(text: Seq<char>) -> Seq<Seq<char>> {
    references_from(text, 0)
}

/// `text` from `from` on, with the references replaced by `sources` from
/// the `next`-th on, one source for one reference; where the sources run out
/// the text stays as it is written.
pub open spec fn splice_from(text: Seq<char>, from: int, sources: Seq<Seq<char>>, next: int) -> Seq<
    char,
>
    decreases text.len() - from,
{
    if from < 0 || from >= text.len() {
        Seq::empty()
    } else if reference_at(text, from) && 0 <= next < sources.len() {
        sources[next] + splice_from(text, past_reference(text, from), sources, next + 1)
    } else {
        seq![text[from]] + splice_from(text, from + 1, sources, next)
    }
}

/// `text` with its k-th reference replaced by the k-th of `sources`.
pub open spec fn splice(text: Seq<char>, sources: Seq<Seq<char>>) -> Seq<char> {
    splice_from(text, 0, sources, 0)
}

/// The texts that a sequence of strings holds.
pub open spec fn texts(strings: Seq<String>) -> Seq<Seq<char>> {
    strings.map_values(|s: String| s@)
}

/// No character of `text` is NUL. The engine that runs a composed program
/// takes its inputs as NUL-terminated strings, so it fails on a text with a
/// NUL inside. A session asks this of every text that is loaded into it;
/// it does not ask it of the sources that a resolver brings.
pub open spec fn well_formed(text: Seq<char>) -> bool {
    forall|k: int| 0 <= k < text.len() ==> text[k] != '\0'
}

/// Up to `EXCERPT_LIMIT` characters of `text` that end just before `at`.
pub open spec fn excerpt_before(text: Seq<char>, at: int) -> Seq<char> {
    if at <= EXCERPT_LIMIT {
        text.subrange(0, at)
    } else {
        text.subrange(at - EXCERPT_LIMIT, at)
    }
}

/// Every name that `references_from` lists is non-empty and holds no quote.
pub proof fn lemma_reference_names(text: Seq<char>, from: int)
    requires
        0 <= from,
    ensures
        forall|k: int|
            0 <= k < references_from(text, from).len() ==> {
                &&& (#[trigger] references_from(text, from)[k]).len() > 0
                &&& !references_from(text, from)[k].contains('\'')
            },
    decreases text.len() - from,
{
    if from < text.len() {
        if reference_at(text, from) {
            lemma_reference_names(text, past_reference(text, from));
            lemma_position_from(text, '\'', from + OPENER_LEN);
            let name = name_at(text, from);
            let rest = references_from(text, past_reference(text, from));
            assert(!name.contains('\''));
            assert(references_from(text, from) == seq![name] + rest);
        } else {
            lemma_reference_names(text, from + 1);
            assert(references_from(text, from) == references_from(text, from + 1));
        }
    }
}

/// The characters of `text`, one by one.
pub fn to_chars(text: &str) -> (chars: Vec<char>)
    ensures
        chars@ == text@,
{
    let mut chars: Vec<char> = Vec::new();
    for c in it: text.chars()
        invariant
            chars@ == text@.take(it.index() as int),
            it.seq() == text@,
    {
        chars.push(c);
    }
    chars
}

/// The characters of `chars` from `from` up to `to`, as a string.
pub fn slice_to_string(chars: &Vec<char>, from: usize, to: usize) -> (text: String)
    requires
        from <= to <= chars.len(),
    ensures
        text@ == chars@.subrange(from as int, to as int),
{
    let mut text = String::new();
    let mut i: usize = from;
    while i < to
        invariant
            from <= i <= to <= chars.len(),
            text@ == chars@.subrange(from as int, i as int),
        decreases to - i,
    {
        text.push(chars[i]);
        i += 1;
    }
    text
}

/// Finds the first `mark` in `chars` at or after `from`.
pub fn find_from(chars: &Vec<char>, mark: char, from: usize) -> (at: usize)
    requires
        from <= chars.len(),
    ensures
        at == position_from(chars@, mark, from as int),
        from <= at <= chars.len(),
{
    let mut i: usize = from;
    while i < chars.len() && chars[i] != mark
        invariant
            from <= i <= chars.len(),
            position_from(chars@, mark, i as int) == position_from(chars@, mark, from as int),
        decreases chars.len() - i,
    {
        i += 1;
    }
    i
}

/// Tells whether a reference starts at `at`, and if so where its name ends.
pub fn reference_end(chars: &Vec<char>, at: usize) -> (end: Option<usize>)
    ensures
        end is Some <==> reference_at(chars@, at as int),
        end matches Some(quote) ==> quote == name_end(chars@, at as int),
{
    let len = chars.len();
    if len < OPENER_LEN || at > len - OPENER_LEN {
        return None;
    }
    let opened = chars[at] == 's' && chars[at + 1] == 'c' && chars[at + 2] == 'e' && chars[at + 3]
        == 'n' && chars[at + 4] == 'a' && chars[at + 5] == 'r' && chars[at + 6] == 'i' && chars[at
        + 7] == 'o' && chars[at + 8] == '(' && chars[at + 9] == '\'';
    proof {
        if opened {
            assert(chars@.subrange(at as int, at + OPENER_LEN) =~= opener());
        }
    }
    if !opened {
        return None;
    }
    let start = at + OPENER_LEN;
    let quote = find_from(chars, '\'', start);
    if start < quote && quote < len - 1 && chars[quote + 1] == ')' {
        Some(quote)
    } else {
        None
    }
}

/// Lists the names of the scenarios that `script` refers to, in the order
/// in which they are written, each as often as it is written.
pub fn scenario_references(script: &str) -> (names: Vec<String>)
    ensures
        texts(names@) == references(script@),
        forall|k: int| 0 <= k < names.len() ==> (#[trigger] names[k])@.len() > 0,
{
    let chars = to_chars(script);
    let mut names: Vec<String> = Vec::new();
    let mut i: usize = 0;
    while i < chars.len()
        invariant
            i <= chars.len(),
            chars@ == script@,
            references(script@) == texts(names@) + references_from(script@, i as int),
        decreases chars.len() - i,
    {
        match reference_end(&chars, i) {
            Some(quote) => {
                let name = slice_to_string(&chars, i + OPENER_LEN, quote);
                names.push(name);
                i = quote + 2;
            },
            None => {
                i += 1;
            },
        }
    }
    proof {
        lemma_reference_names(script@, 0);
        assert forall|k: int| 0 <= k < names.len() implies (#[trigger] names[k])@.len() > 0 by {
            assert(texts(names@)[k] == names[k]@);
        }
    }
    names
}

/// Writes `script` out with its k-th reference replaced by the k-th of
/// `sources`. References for which `sources` holds no text stay as written.
pub fn splice_sources(script: &str, sources: &Vec<String>) -> (composed: String)
    ensures
        composed@ == splice(script@, texts(sources@)),
{
    let chars = to_chars(script);
    let mut composed = String::new();
    let mut i: usize = 0;
    let mut next: usize = 0;
    while i < chars.len()
        invariant
            i <= chars.len(),
            next <= sources.len(),
            chars@ == script@,
            splice(script@, texts(sources@)) == composed@ + splice_from(
                script@,
                i as int,
                texts(sources@),
                next as int,
            ),
        decreases chars.len() - i,
    {
        let end = if next < sources.len() {
            reference_end(&chars, i)
        } else {
            None
        };
        match end {
            Some(quote) => {
                composed.append(sources[next].as_str());
                i = quote + 2;
                next += 1;
            },
            None => {
                composed.push(chars[i]);
                i += 1;
            },
        }
    }
    composed
}

/// Finds the first NUL in `text`, if there is one.
pub fn first_nul(text: &str) -> (at: Option<usize>)
    ensures
        at is None <==> well_formed(text@),
        at matches Some(k) ==> k == position_from(text@, '\0', 0) && k < text@.len(),
{
    let chars = to_chars(text);
    let k = find_from(&chars, '\0', 0);
    proof {
        lemma_position_from(text@, '\0', 0);
    }
    if k < chars.len() {
        Some(k)
    } else {
        None
    }
}

/// Cuts out what leads up to the place `at` of `text`: the characters
/// before it, the last `EXCERPT_LIMIT` of them where there are more.
pub fn excerpt(text: &str, at: usize) -> (cut: String)
    requires
        at <= text@.len(),
    ensures
        cut@ == excerpt_before(text@, at as int),
{
    let chars = to_chars(text);
    let from = if at <= EXCERPT_LIMIT {
        0
    } else {
        at - EXCERPT_LIMIT
    };
    slice_to_string(&chars, from, at)
}

} // verus!
