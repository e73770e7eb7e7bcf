use tibia_markers::focus::{
    app_name_from_output, choose_app_name, extract_app_name, is_focused, is_target_app,
    QUOTED_NAME_PATTERN, TARGET_APP,
};

fn some(name: &str) -> Option<String> {
    Some(name.to_string())
}

#[test]
fn name_is_taken_from_between_the_quotes() {
    let line = "    7) \"Tibia\" ASN:0x0-0x1e01e: (in front)".to_string();
    assert_eq!(extract_app_name(line), some("Tibia"));
}

#[test]
fn first_quoted_name_wins() {
    let line = "1) \"Finder\" 2) \"Tibia\"".to_string();
    assert_eq!(extract_app_name(line), some("Finder"));
}

#[test]
fn name_may_hold_spaces() {
    assert_eq!(extract_app_name("\"Google Chrome\" (in front)".to_string()), some("Google Chrome"));
}

#[test]
fn text_without_quotes_has_no_name() {
    assert_eq!(extract_app_name("Tibia (in front)".to_string()), None);
    assert_eq!(extract_app_name(String::new()), None);
}

#[test]
fn bare_target_name_is_no_name() {
    assert_eq!(extract_app_name("Tibia".to_string()), None);
    assert_eq!(app_name_from_output(b"Tibia".to_vec()), None);
    assert_eq!(app_name_from_output(b"Tibia\n".to_vec()), None);
    assert_eq!(app_name_from_output(b"Ti\nbia\n".to_vec()), None);
    assert!(!is_focused(&extract_app_name("Tibia".to_string())));
    assert!(!is_focused(&app_name_from_output(b"Ti\nbia\n".to_vec())));
}

#[test]
fn single_quote_or_empty_quotes_are_no_name() {
    assert_eq!(extract_app_name("say \"Tibia".to_string()), None);
    assert_eq!(extract_app_name("Tibia\"".to_string()), None);
    assert_eq!(extract_app_name("\"\"".to_string()), None);
}

#[test]
fn empty_quotes_are_passed_over_for_the_next_quoted_run() {
    assert_eq!(extract_app_name("\"\" \"abc\"".to_string()), some(" "));
    assert_eq!(extract_app_name("\"\"Tibia\"".to_string()), some("Tibia"));
}

#[test]
fn chosen_name_is_the_quoted_one_or_none() {
    assert_eq!(choose_app_name(Some(some("Tibia"))), some("Tibia"));
    assert_eq!(choose_app_name(Some(None)), None);
    assert_eq!(choose_app_name(None), None);
}

#[test]
fn output_loses_its_line_feeds_before_the_name_is_taken() {
    let output = b"  3) \"Tibia\" ASN:0x0-0x2b02b: (in front)\n".to_vec();
    assert_eq!(app_name_from_output(output), some("Tibia"));
    let split = b"\"Ti\nbia\"\n".to_vec();
    assert_eq!(app_name_from_output(split), some("Tibia"));
    let lines = b"\n\"a\nb\nc\"\n\n".to_vec();
    assert_eq!(app_name_from_output(lines), some("abc"));
}

#[test]
fn only_line_feeds_are_removed_from_the_output() {
    let output = b"\"a\r\n b\tc\"\n".to_vec();
    assert_eq!(app_name_from_output(output), some("a\r b\tc"));
}

#[test]
fn output_without_a_quoted_name_yields_nothing() {
    assert_eq!(app_name_from_output(b"no name\nhere\n".to_vec()), None);
    assert_eq!(app_name_from_output(Vec::new()), None);
    assert_eq!(app_name_from_output(b"\n".to_vec()), None);
}

#[test]
fn output_with_characters_beyond_ascii_is_decoded() {
    let output = "\"Caf\u{e9}\"\n".as_bytes().to_vec();
    assert_eq!(app_name_from_output(output), some("Caf\u{e9}"));
}

#[test]
fn output_that_is_not_utf8_yields_nothing() {
    assert_eq!(app_name_from_output(vec![b'"', 0xff, b'"']), None);
    assert_eq!(app_name_from_output(vec![0xc3]), None);
    assert_eq!(app_name_from_output(vec![b'"', b'T', b'"', 0x80]), None);
}

#[test]
fn target_is_matched_exactly() {
    assert!(is_target_app(&"Tibia".to_string()));
    assert!(!is_target_app(&"tibia".to_string()));
    assert!(!is_target_app(&"Tibia ".to_string()));
    assert!(!is_target_app(&String::new()));
    assert!(!is_target_app(&"\"Tibia\"".to_string()));
}

#[test]
fn focus_needs_a_name_and_the_name_must_be_the_target() {
    assert!(is_focused(&some("Tibia")));
    assert!(!is_focused(&some("Finder")));
    assert!(!is_focused(&some("")));
    assert!(!is_focused(&None));
}

#[test]
fn target_and_pattern_have_their_texts() {
    assert_eq!(TARGET_APP, "Tibia");
    assert_eq!(QUOTED_NAME_PATTERN, "\"([^\"]+)\"");
}

#[test]
fn extracted_name_of_the_target_line_is_the_target() {
    let output = b"12) \"Tibia\" ASN:0x0-0x9f09f: (in front)\n".to_vec();
    assert!(is_focused(&app_name_from_output(output)));
    let other = app_name_from_output(b"4) \"Safari\" ASN:0x0-0x1: (in front)\n".to_vec());
    assert_eq!(other, some("Safari"));
    assert!(!is_focused(&other));
}
