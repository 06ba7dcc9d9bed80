use find_id::pipeline::{
    contains_any, ids_from_lines, matching_message_items, messages_from_content,
};
use find_id::split::split_by;

#[test]
fn split_drops_separators() {
    let parts = split_by("a<translation x<translationy", "<translation");
    assert_eq!(parts, vec!["a".to_string(), " x".to_string(), "y".to_string()]);
}

#[test]
fn split_without_separator() {
    assert_eq!(split_by("plain text", "<message"), vec!["plain text".to_string()]);
}

#[test]
fn split_leading_and_trailing() {
    let parts = split_by("<a>x<a>", "<a>");
    assert_eq!(parts, vec!["".to_string(), "x".to_string(), "".to_string()]);
}

#[test]
fn contains_any_hits() {
    let needles = vec!["AAA".to_string(), "BBB".to_string()];
    assert!(contains_any("x BBB y", &needles));
    assert!(!contains_any("x CCC y", &needles));
    assert!(!contains_any("anything", &Vec::new()));
}

#[test]
fn ids_from_matching_lines() {
    let lines = vec![
        "<translation id=\"IDS_GREETING\">\u{4f60}\u{597d}</translation>".to_string(),
        "<translation id=\"IDS_FAREWELL\">\u{518d}\u{89c1}</translation>".to_string(),
        "<translation id=\"IDS_OTHER\">\u{4f60}\u{597d}\u{5417}</translation>".to_string(),
    ];
    let ids = ids_from_lines(&lines, "\u{4f60}\u{597d}");
    assert_eq!(ids, vec!["IDS_GREETING".to_string(), "IDS_OTHER".to_string()]);
}

#[test]
fn ids_skip_lines_without_attribute() {
    let lines = vec![
        "<translationbundle lang=\"zh-CN\">".to_string(),
        "<translation id=\"IDS_HIT\">target</translation>".to_string(),
    ];
    let ids = ids_from_lines(&lines, "target");
    assert_eq!(ids, vec!["IDS_HIT".to_string()]);
}

#[test]
fn ids_from_no_lines() {
    let ids = ids_from_lines(&Vec::new(), "anything");
    assert!(ids.is_empty());
}

#[test]
fn messages_for_discovered_ids() {
    let content = "<?xml version=\"1.0\"?><translationbundle>\
<translation id=\"IDS_GREETING\">Hello</translation>\
<translation id=\"IDS_FAREWELL\">Goodbye</translation>\
</translationbundle>";
    let ids = vec!["IDS_GREETING".to_string()];
    let msgs = messages_from_content(content, &ids);
    assert_eq!(msgs, vec!["Hello".to_string()]);
}

#[test]
fn messages_with_no_ids() {
    let content = "<translation id=\"IDS_A\">Hello</translation>";
    let msgs = messages_from_content(content, &Vec::new());
    assert!(msgs.is_empty());
}

#[test]
fn message_elements_containing_text() {
    let content = "<grit><message name=\"IDS_GREETING\" desc=\"d\">Hello</message>\
<message name=\"IDS_OTHER\">Other</message></grit>";
    let messages = vec!["Hello".to_string()];
    let found = matching_message_items(content, &messages);
    assert_eq!(found, vec![" name=\"IDS_GREETING\" desc=\"d\">Hello</message>".to_string()]);
}

#[test]
fn message_elements_none_match() {
    let content = "<grit><message name=\"IDS_A\">Alpha</message></grit>";
    let found = matching_message_items(content, &vec!["Beta".to_string()]);
    assert!(found.is_empty());
}

#[test]
fn whole_pipeline_on_small_tree() {
    let zh_lines = vec![
        "<translation id=\"IDS_GREETING\">\u{4f60}\u{597d}</translation>".to_string(),
    ];
    let ids = ids_from_lines(&zh_lines, "\u{4f60}\u{597d}");
    assert_eq!(ids, vec!["IDS_GREETING".to_string()]);

    let en_content = "<translationbundle>\
<translation id=\"IDS_GREETING\">Hello</translation>\
</translationbundle>";
    let messages = messages_from_content(en_content, &ids);
    assert_eq!(messages, vec!["Hello".to_string()]);

    let grd_content = "<grit><message name=\"IDS_GREETING\">Hello</message></grit>";
    let found = matching_message_items(grd_content, &messages);
    assert_eq!(found, vec![" name=\"IDS_GREETING\">Hello</message></grit>".to_string()]);
}
