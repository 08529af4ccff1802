use aitiquette::tags::parse_tags;

fn ok(input: &str) -> Vec<String> {
    match parse_tags(input) {
        Some(tags) => tags,
        None => panic!("expected {:?} to parse", input),
    }
}

fn bad(input: &str) {
    if let Some(tags) = parse_tags(input) {
        panic!("expected {:?} to be rejected, got {:?}", input, tags);
    }
}

#[test]
fn plain_array_of_strings() {
    assert_eq!(ok("[\"rust\",\"verification\"]"), vec!["rust", "verification"]);
}

#[test]
fn single_element() {
    assert_eq!(ok("[\"only\"]"), vec!["only"]);
}

#[test]
fn empty_array_is_an_empty_tag_set() {
    assert_eq!(ok("[]"), Vec::<String>::new());
    assert_eq!(ok("  [   ]  "), Vec::<String>::new());
}

#[test]
fn surrounding_and_inner_whitespace() {
    assert_eq!(ok(" \t[ \"a\" ,\n\"b\" ]\r\n"), vec!["a", "b"]);
}

#[test]
fn simple_escapes() {
    assert_eq!(ok("[\"a\\nb\"]"), vec!["a\nb"]);
    assert_eq!(ok("[\"a\\tb\\rc\"]"), vec!["a\tb\rc"]);
    assert_eq!(ok("[\"\\\"\\\\\\/\"]"), vec!["\"\\/"]);
    assert_eq!(ok("[\"\\b\\f\"]"), vec!["\u{0008}\u{000C}"]);
}

#[test]
fn unicode_escapes() {
    assert_eq!(ok("[\"\\u0041\\u00e9\"]"), vec!["A\u{e9}"]);
    assert_eq!(ok("[\"\\u12AB\"]"), vec!["\u{12ab}"]);
}

#[test]
fn surrogate_pair_escape() {
    assert_eq!(ok("[\"\\uD834\\uDD1E\"]"), vec!["\u{1D11E}"]);
}

#[test]
fn unescaped_non_ascii_passes_through() {
    assert_eq!(ok("[\"th\u{e9}\u{e2}tre\",\"\u{1F600}\"]"), vec!["th\u{e9}\u{e2}tre", "\u{1F600}"]);
}

#[test]
fn not_json_is_rejected() {
    bad("not json");
}

#[test]
fn truncated_or_unclosed_input_is_rejected() {
    bad("");
    bad("[");
    bad("[\"a\"");
    bad("[\"a");
    bad("[\"a\",");
}

#[test]
fn trailing_garbage_is_rejected() {
    bad("[\"a\"] extra");
    bad("[\"a\"]]");
}

#[test]
fn non_string_elements_are_rejected() {
    bad("[1]");
    bad("[null]");
    bad("[[\"a\"]]");
    bad("[\"a\", 2]");
}

#[test]
fn a_bare_string_is_not_an_array() {
    bad("\"a\"");
}

#[test]
fn separator_mistakes_are_rejected() {
    bad("[\"a\" \"b\"]");
    bad("[\"a\",,\"b\"]");
    bad("[,\"a\"]");
    bad("[\"a\",]");
}

#[test]
fn bad_escapes_are_rejected() {
    bad("[\"\\q\"]");
    bad("[\"\\u12\"]");
    bad("[\"\\u12G4\"]");
}

#[test]
fn lone_surrogates_are_rejected() {
    bad("[\"\\uD834\"]");
    bad("[\"\\uD834x\"]");
    bad("[\"\\uDD1E\"]");
    bad("[\"\\uD834\\u0041\"]");
}

#[test]
fn raw_control_characters_are_rejected() {
    bad("[\"a\u{0001}b\"]");
    bad("[\"a\nb\"]");
}

#[test]
fn agrees_with_a_reference_json_parser() {
    let inputs = [
        "[\"rust\",\"verification\"]",
        "[\"only\"]",
        "[]",
        "  [   ]  ",
        " \t[ \"a\" ,\n\"b\" ]\r\n",
        "[\"a\\nb\"]",
        "[\"\\\"\\\\\\/\"]",
        "[\"\\b\\f\\t\\r\"]",
        "[\"\\u0041\\u00e9\"]",
        "[\"\\uD834\\uDD1E\"]",
        "[\"th\u{e9}\u{e2}tre\",\"\u{1F600}\"]",
        "not json",
        "",
        "[",
        "[\"a\"",
        "[\"a\",",
        "[\"a\"] extra",
        "[\"a\"]]",
        "[1]",
        "[null]",
        "[[\"a\"]]",
        "[\"a\", 2]",
        "\"a\"",
        "[\"a\" \"b\"]",
        "[\"a\",,\"b\"]",
        "[,\"a\"]",
        "[\"a\",]",
        "[\"\\q\"]",
        "[\"\\u12\"]",
        "[\"\\uD834\"]",
        "[\"\\uDD1E\"]",
        "[\"a\u{0001}b\"]",
        "[\"\"]",
        "[ \"mixed\\u0020escape s\" , \"deux\" ]",
    ];
    for input in inputs {
        let reference: Result<Vec<String>, _> = serde_json::from_str(input);
        match (parse_tags(input), reference) {
            (Some(ours), Ok(theirs)) => assert_eq!(ours, theirs, "on {:?}", input),
            (None, Err(_)) => {}
            (ours, theirs) => {
                panic!("disagreement on {:?}: {:?} vs {:?}", input, ours, theirs)
            }
        }
    }
}
