use cornerpin::windows::{choose_title, find_target, is_eligible, list_windows, Sighting};

fn sight(handle: usize, title: &str) -> Sighting {
    Sighting { handle, visible: true, ex_style: 0, title: title.to_string() }
}

#[test]
fn tool_windows_and_hidden_windows_are_not_eligible() {
    assert!(is_eligible(true, 0));
    assert!(is_eligible(true, 0x8));
    assert!(!is_eligible(true, 0x80));
    assert!(!is_eligible(true, 0x88));
    assert!(!is_eligible(true, -1));
    assert!(!is_eligible(false, 0));
}

#[test]
fn only_titled_visible_windows_are_listed_in_order() {
    let mut hidden = sight(2, "Hidden");
    hidden.visible = false;
    let mut tool = sight(3, "Tool");
    tool.ex_style = 0x80;
    let seen = vec![sight(1, "One"), hidden, tool, sight(4, " \t"), sight(5, ""), sight(6, "Six")];
    let listed: Vec<(usize, String)> =
        list_windows(&seen).into_iter().map(|w| (w.handle, w.title)).collect();
    assert_eq!(listed, vec![(1, "One".to_string()), (6, "Six".to_string())]);
}

#[test]
fn exact_title_goes_before_partial_title() {
    let seen = vec![sight(1, "Telegram Web"), sight(2, "Telegram"), sight(3, "Telegram")];
    assert_eq!(find_target(&seen, "telegram"), 2);
}

#[test]
fn first_partial_title_is_taken() {
    let seen = vec![sight(1, "Notes"), sight(2, "My Telegram"), sight(3, "Telegram (3)")];
    assert_eq!(find_target(&seen, "TELEGRAM"), 2);
}

#[test]
fn letter_case_does_not_count_beyond_ascii() {
    let seen = vec![sight(1, "ÇALIŞMA ŞEMASI"), sight(2, "çalişma")];
    assert_eq!(find_target(&seen, "ŞEMASI"), 1);
    assert_eq!(find_target(&seen, "ÇALI"), 1);
    assert_eq!(find_target(&[sight(4, "ΣΑΣ")].into(), "σας"), 4);
}

#[test]
fn nothing_is_found_where_no_title_fits() {
    assert_eq!(find_target(&vec![], "Telegram"), 0);
    assert_eq!(find_target(&vec![sight(1, "Notes")], "Telegram"), 0);
    let mut tool = sight(3, "Telegram");
    tool.ex_style = 0x80;
    assert_eq!(find_target(&vec![tool], "Telegram"), 0);
}

#[test]
fn empty_text_means_the_first_window() {
    assert_eq!(find_target(&vec![sight(7, "Notes"), sight(8, "Mail")], ""), 7);
}

#[test]
fn choice_works_on_given_lowercase_texts() {
    let titles = vec!["a b".to_string(), "b".to_string(), "ab".to_string()];
    assert_eq!(choose_title(&titles, &"b".to_string()), Some(1));
    assert_eq!(choose_title(&titles, &"ab".to_string()), Some(2));
    assert_eq!(choose_title(&titles, &"a".to_string()), Some(0));
    assert_eq!(choose_title(&titles, &"c".to_string()), None);
    assert_eq!(choose_title(&titles, &"B".to_string()), None);
}
