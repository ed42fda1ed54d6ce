use wizi::selector::{
    filter_ssids, matches_folded, ssid_matches, Selector, SelectorEffect, SelectorMessage,
};

fn names() -> Vec<String> {
    vec!["Brainjuice".to_string(), "ExtraStrongBrainjuice".to_string()]
}

#[test]
fn filter_ignores_case() {
    assert!(ssid_matches("Brainjuice", "BRAIN"));
    assert!(ssid_matches("ExtraStrongBrainjuice", "strong"));
    assert!(!ssid_matches("Brainjuice", "strong"));
}

#[test]
fn folded_match_is_substring() {
    assert!(matches_folded("abc", "bc"));
    assert!(matches_folded("abc", ""));
    assert!(!matches_folded("abc", "x"));
    assert!(!matches_folded("abc", "B"));
}

#[test]
fn filter_keeps_order() {
    assert_eq!(filter_ssids(&names(), "juice"), names());
    assert_eq!(filter_ssids(&names(), "EXTRA"), vec!["ExtraStrongBrainjuice".to_string()]);
    assert!(filter_ssids(&names(), "nope").is_empty());
}

#[test]
fn input_change_stores_text_and_asks_reset() {
    let mut s = Selector::new(names());
    s.update(SelectorMessage::SelectNext);
    let e = s.update(SelectorMessage::SsidInputChanged("extra".to_string()));
    assert_eq!(e, SelectorEffect::ResetSelection);
    assert_eq!(s.ssid_input, "extra");
    assert_eq!(s.visible_ssids(), vec!["ExtraStrongBrainjuice".to_string()]);
    assert_eq!(s.update(SelectorMessage::ResetSelection), SelectorEffect::Idle);
    assert_eq!(s.selected_index, 0);
}

#[test]
fn selection_saturates() {
    let mut s = Selector::new(names());
    s.update(SelectorMessage::SelectPrevious);
    assert_eq!(s.selected_index, 0);
    s.update(SelectorMessage::SelectNext);
    s.update(SelectorMessage::SelectNext);
    assert_eq!(s.selected_index, 2);
    assert!(s.is_selected(2));
    s.selected_index = usize::MAX;
    s.update(SelectorMessage::SelectNext);
    assert_eq!(s.selected_index, usize::MAX);
}

#[test]
fn quit_exits() {
    let mut s = Selector::new(names());
    assert_eq!(s.update(SelectorMessage::Quit), SelectorEffect::Exit);
}
