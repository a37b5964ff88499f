use zenroom_minimal::syntax::{
    excerpt, find_from, first_nul, reference_end, scenario_references, slice_to_string,
    splice_sources, to_chars, EXCERPT_LIMIT, OPENER_LEN,
};

fn names(script: &str) -> Vec<String> {
    scenario_references(script)
}

fn owned(texts: &[&str]) -> Vec<String> {
    texts.iter().map(|t| t.to_string()).collect()
}

#[test]
fn constants_match_the_notation() {
    assert_eq!(OPENER_LEN, "scenario('".chars().count());
    assert_eq!(EXCERPT_LIMIT, 32);
}

#[test]
fn to_chars_keeps_every_character() {
    assert_eq!(to_chars(""), Vec::<char>::new());
    assert_eq!(to_chars("a'b"), vec!['a', '\'', 'b']);
    assert_eq!(to_chars("clé→x"), vec!['c', 'l', 'é', '→', 'x']);
}

#[test]
fn slice_to_string_cuts_by_characters() {
    let chars = to_chars("héllo wörld");
    assert_eq!(slice_to_string(&chars, 0, 5), "héllo");
    assert_eq!(slice_to_string(&chars, 6, 11), "wörld");
    assert_eq!(slice_to_string(&chars, 3, 3), "");
    assert_eq!(slice_to_string(&chars, 0, 11), "héllo wörld");
}

#[test]
fn find_from_gives_first_place_or_length() {
    let chars = to_chars("a'b'c");
    assert_eq!(find_from(&chars, '\'', 0), 1);
    assert_eq!(find_from(&chars, '\'', 1), 1);
    assert_eq!(find_from(&chars, '\'', 2), 3);
    assert_eq!(find_from(&chars, '\'', 4), 5);
    assert_eq!(find_from(&chars, '\'', 5), 5);
    assert_eq!(find_from(&chars, 'z', 0), 5);
}

#[test]
fn reference_end_finds_the_closing_quote() {
    let chars = to_chars("scenario('ecdh')");
    assert_eq!(reference_end(&chars, 0), Some(14));
    assert_eq!(reference_end(&chars, 1), None);
    assert_eq!(reference_end(&chars, 15), None);
    assert_eq!(reference_end(&chars, 16), None);
    assert_eq!(reference_end(&chars, 1000), None);
    assert_eq!(reference_end(&chars, usize::MAX), None);
}

#[test]
fn reference_end_on_short_texts() {
    assert_eq!(reference_end(&to_chars(""), 0), None);
    assert_eq!(reference_end(&to_chars("scenario("), 0), None);
    assert_eq!(reference_end(&to_chars("scenario('"), 0), None);
    assert_eq!(reference_end(&to_chars("scenario('a"), 0), None);
    assert_eq!(reference_end(&to_chars("scenario('a'"), 0), None);
    assert_eq!(reference_end(&to_chars("scenario('a')"), 0), Some(11));
}

#[test]
fn script_without_references_lists_nothing() {
    assert_eq!(names(""), Vec::<String>::new());
    assert_eq!(names("print('ok')"), Vec::<String>::new());
    assert_eq!(names("Scenario 'ecdh': create the keypair"), Vec::<String>::new());
    assert_eq!(names("scenario(\"ecdh\")"), Vec::<String>::new());
    assert_eq!(names("scenario ('ecdh')"), Vec::<String>::new());
}

#[test]
fn single_reference_is_listed() {
    assert_eq!(names("scenario('ecdh')\nprint('ok')"), owned(&["ecdh"]));
    assert_eq!(names("scenario('ecdh')"), owned(&["ecdh"]));
    assert_eq!(names("x = 1\nscenario('a')"), owned(&["a"]));
}

#[test]
fn references_come_in_written_order_with_repeats() {
    let script = "scenario('b')\nscenario('a')\nscenario('b')\nprint(1)\nscenario('c')scenario('a')";
    assert_eq!(names(script), owned(&["b", "a", "b", "c", "a"]));
}

#[test]
fn empty_name_is_no_reference() {
    assert_eq!(names("scenario('')"), Vec::<String>::new());
    assert_eq!(names("scenario('')scenario('x')"), owned(&["x"]));
}

#[test]
fn opener_without_proper_end_is_plain_text() {
    assert_eq!(names("scenario('abc"), Vec::<String>::new());
    assert_eq!(names("scenario('abc'"), Vec::<String>::new());
    assert_eq!(names("scenario('abc'x)"), Vec::<String>::new());
    assert_eq!(names("scenario('abc' )"), Vec::<String>::new());
}

#[test]
fn scan_resumes_right_after_a_failed_opener() {
    // The first opener leads to the name "scenario(" and then to an 'x', so
    // no reference starts there; the second opener starts one.
    assert_eq!(names("scenario('scenario('x')"), owned(&["x"]));
}

#[test]
fn name_takes_every_character_up_to_the_quote() {
    assert_eq!(names("scenario('zencode ecdh-1.0')"), owned(&["zencode ecdh-1.0"]));
    assert_eq!(names("scenario('clé→')"), owned(&["clé→"]));
    assert_eq!(names("scenario('a\nb')"), owned(&["a\nb"]));
    assert_eq!(names("scenario('a)(b')"), owned(&["a)(b"]));
}

#[test]
fn opener_inside_longer_word_still_counts() {
    assert_eq!(names("load_scenario('ecdh')"), owned(&["ecdh"]));
}

#[test]
fn every_listed_name_is_non_empty() {
    let script = "scenario('')scenario('a')scenario('')scenario('bc')";
    for name in names(script) {
        assert!(!name.is_empty());
        assert!(!name.contains('\''));
    }
}

#[test]
fn splice_replaces_each_reference_by_its_source() {
    let script = "scenario('ecdh')\nprint('ok')";
    assert_eq!(
        splice_sources(script, &owned(&["<ecdh scenario source>"])),
        "<ecdh scenario source>\nprint('ok')"
    );
    let script = "a scenario('x') b scenario('y') c scenario('x') d";
    assert_eq!(splice_sources(script, &owned(&["1", "22", "333"])), "a 1 b 22 c 333 d");
}

#[test]
fn splice_without_references_copies_the_script() {
    assert_eq!(splice_sources("", &owned(&[])), "");
    assert_eq!(splice_sources("print('ok')", &owned(&[])), "print('ok')");
    assert_eq!(splice_sources("print('ok')", &owned(&["unused"])), "print('ok')");
    assert_eq!(splice_sources("clé→scenario('", &owned(&[])), "clé→scenario('");
}

#[test]
fn splice_leaves_references_without_source_as_written() {
    let script = "scenario('a');scenario('b');scenario('c')";
    assert_eq!(splice_sources(script, &owned(&[])), script);
    assert_eq!(splice_sources(script, &owned(&["A"])), "A;scenario('b');scenario('c')");
    assert_eq!(splice_sources(script, &owned(&["A", "B"])), "A;B;scenario('c')");
    assert_eq!(splice_sources(script, &owned(&["A", "B", "C", "D"])), "A;B;C");
}

#[test]
fn splice_does_not_read_sources_for_references() {
    let script = "scenario('a')|scenario('b')";
    assert_eq!(
        splice_sources(script, &owned(&["scenario('b')", "x"])),
        "scenario('b')|x"
    );
}

#[test]
fn splice_with_empty_source_removes_the_reference() {
    assert_eq!(splice_sources("a scenario('x') b", &owned(&[""])), "a  b");
}

#[test]
fn first_nul_finds_the_first_one() {
    assert_eq!(first_nul(""), None);
    assert_eq!(first_nul("no nul here"), None);
    assert_eq!(first_nul("\0"), Some(0));
    assert_eq!(first_nul("ab\0cd\0"), Some(2));
    assert_eq!(first_nul("é→\0"), Some(2));
}

#[test]
fn excerpt_takes_what_leads_up_to_a_place() {
    assert_eq!(excerpt("hello world", 0), "");
    assert_eq!(excerpt("hello world", 5), "hello");
    assert_eq!(excerpt("hello world", 11), "hello world");
}

#[test]
fn excerpt_is_limited_to_the_last_characters() {
    let text = "0123456789abcdefghijklmnopqrstuvwxyzABCDEFGHIJ";
    assert_eq!(excerpt(text, 32), "0123456789abcdefghijklmnopqrstuv");
    assert_eq!(excerpt(text, 33), "123456789abcdefghijklmnopqrstuvw");
    assert_eq!(excerpt(text, 46), "efghijklmnopqrstuvwxyzABCDEFGHIJ");
    assert_eq!(excerpt(text, 46).chars().count(), EXCERPT_LIMIT);
}
