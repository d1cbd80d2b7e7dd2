use cornerpin::commands::{chosen_command, Reaction};
use cornerpin::geometry::Rect;
use cornerpin::menu::{build_menu, checked, Item, Line};
use cornerpin::settings::{edge_name, load_settings, settings_path, side_name, width_name, Settings};
use cornerpin::state::State;
use cornerpin::windows::Sighting;

fn sight(handle: usize, title: &str) -> Sighting {
    Sighting { handle, visible: true, ex_style: 0, title: title.to_string() }
}

fn state() -> State {
    let mut st = State::new(Settings::default(), 5);
    st.target = 9;
    st.keep_w = 300;
    st.keep_h = 200;
    st.notified = true;
    st.bar_registered = true;
    st.bar_dirty = false;
    st.bar_rect = Rect { left: 0, top: 0, right: 300, bottom: 100 };
    st
}

fn lines(item: &Item) -> (String, Vec<(u32, usize, String)>) {
    match item {
        Item::Popup { text, lines } => (
            text.clone(),
            lines
                .iter()
                .map(|l| match l {
                    Line::Entry { flags, id, text } => (*flags, *id, text.clone()),
                    Line::Separator => (0x800, 0, String::new()),
                })
                .collect(),
        ),
        Item::Line { .. } => panic!("a menu is expected"),
    }
}

fn entry(item: &Item) -> (u32, usize, String) {
    match item {
        Item::Line { line: Line::Entry { flags, id, text } } => (*flags, *id, text.clone()),
        _ => panic!("an entry is expected"),
    }
}

fn e(flags: u32, id: usize, text: &str) -> (u32, usize, String) {
    (flags, id, text.to_string())
}

#[test]
fn settings_of_a_first_run() {
    let s = Settings::default();
    assert_eq!(s.window_match, "Telegram");
    assert_eq!((s.edge, s.top, s.width_mode), (0, false, 0));
    assert_eq!((s.top_most, s.run_at_startup), (true, false));
}

#[test]
fn settings_that_cannot_be_read_are_those_of_a_first_run() {
    assert_eq!(load_settings(None).window_match, "Telegram");
    let mut kept = Settings::default();
    kept.window_match = "Notes".to_string();
    kept.edge = 1;
    kept.top = true;
    kept.width_mode = 2;
    kept.top_most = false;
    kept.run_at_startup = true;
    let copy = kept.clone();
    let s = load_settings(Some(kept));
    assert_eq!(s.window_match, "Notes");
    assert_eq!((s.edge, s.top, s.width_mode), (1, true, 2));
    assert_eq!((s.top_most, s.run_at_startup), (false, true));
    assert_eq!(copy.window_match, "Notes");
    assert_eq!((copy.edge, copy.top, copy.width_mode), (1, true, 2));
}

#[test]
fn settings_lie_in_their_folder() {
    let base = "C:\\Users\\me\\AppData\\Roaming".to_string();
    assert_eq!(
        settings_path(Some(base.clone())),
        vec![base, "CornerPin".to_string(), "settings.json".to_string()]
    );
    assert_eq!(settings_path(None)[0], ".");
}

#[test]
fn names_of_corners_and_sizes() {
    assert_eq!((side_name(0), side_name(1), side_name(9)), ("Sağ", "Sol", "Sol"));
    assert_eq!((edge_name(0, false), edge_name(0, true)), ("Sağ Alt", "Sağ Üst"));
    assert_eq!((edge_name(1, false), edge_name(1, true)), ("Sol Alt", "Sol Üst"));
    assert_eq!(
        (width_name(0), width_name(1), width_name(2)),
        ("Mevcut Boyut", "Tam Yükseklik 420 px", "Tam Yükseklik 520 px")
    );
}

#[test]
fn check_mark_flag() {
    assert_eq!(checked(true), 8);
    assert_eq!(checked(false), 0);
}

#[test]
fn menu_shows_what_is_chosen() {
    let mut st = state();
    st.settings.width_mode = 2;
    st.settings.run_at_startup = true;
    let long = "ş".repeat(51);
    let seen = vec![sight(1, "Notes"), sight(2, "TELEGRAM"), sight(3, &long)];
    let menu = st.show_menu(&seen);
    assert_eq!(st.menu_windows, vec!["Notes".to_string(), "TELEGRAM".to_string(), long.clone()]);
    assert_eq!(menu.len(), 9);
    let (text, windows) = lines(&menu[0]);
    assert_eq!(text, "Pencere");
    assert_eq!(
        windows,
        vec![
            e(8, 1000, "Telegram (Otomatik)"),
            e(0x800, 0, ""),
            e(0, 1100, "Notes"),
            e(8, 1101, "TELEGRAM"),
            e(0, 1102, &format!("{}…", "ş".repeat(50))),
        ]
    );
    let (text, edges) = lines(&menu[1]);
    assert_eq!(text, "Kenar");
    assert_eq!(
        edges,
        vec![
            e(8, 1201, "Sağ Alt"),
            e(0, 1202, "Sağ Üst"),
            e(0, 1203, "Sol Alt"),
            e(0, 1204, "Sol Üst"),
        ]
    );
    let (text, widths) = lines(&menu[2]);
    assert_eq!(text, "Genişlik");
    assert_eq!(
        widths,
        vec![
            e(0, 1301, "Mevcut Boyut"),
            e(0, 1302, "Tam Yükseklik 420 px"),
            e(8, 1303, "Tam Yükseklik 520 px"),
        ]
    );
    assert!(matches!(menu[3], Item::Line { line: Line::Separator }));
    assert_eq!(entry(&menu[4]), e(8, 1401, "Her Zaman Üstte"));
    assert_eq!(entry(&menu[5]), e(8, 1402, "Windows İle Başlat"));
    assert!(matches!(menu[6], Item::Line { line: Line::Separator }));
    assert_eq!(entry(&menu[7]), e(0, 1403, "Şimdi Sabitle"));
    assert_eq!(entry(&menu[8]), e(0, 1404, "Çıkış"));
}

#[test]
fn title_of_fifty_characters_is_not_abridged() {
    let mut st = state();
    let title = "a".repeat(50);
    let menu = st.show_menu(&vec![sight(1, &title)]);
    assert_eq!(lines(&menu[0]).1[2], e(0, 1100, &title));
}

#[test]
fn menu_offers_forty_windows_at_most() {
    let mut st = state();
    let seen: Vec<Sighting> = (1..=45).map(|i| sight(i, &format!("W{}", i))).collect();
    let menu = st.show_menu(&seen);
    assert_eq!(st.menu_windows.len(), 40);
    assert_eq!(lines(&menu[0]).1.len(), 42);
    assert_eq!(lines(&menu[0]).1[41], e(0, 1139, "W40"));
}

#[test]
fn menu_from_given_lowercase_forms() {
    let s = Settings::default();
    let titles = vec!["A".to_string(), "B".to_string()];
    let lower = vec!["a".to_string(), "b".to_string()];
    let menu = build_menu(&s, &titles, &lower, &"b".to_string());
    let (_, windows) = lines(&menu[0]);
    assert_eq!(windows[0], e(0, 1000, "Telegram (Otomatik)"));
    assert_eq!(windows[2], e(0, 1100, "A"));
    assert_eq!(windows[3], e(8, 1101, "B"));
    let auto = build_menu(&s, &vec![], &vec![], &"telegram".to_string());
    assert_eq!(lines(&auto[0]).1[0].0, 8);
}

#[test]
fn entries_are_told_apart() {
    let mut st = state();
    let seen: Vec<Sighting> = (1..=40).map(|i| sight(i, "W")).collect();
    let menu = st.show_menu(&seen);
    let mut ids: Vec<usize> = Vec::new();
    for item in &menu {
        match item {
            Item::Popup { .. } => {
                ids.extend(lines(item).1.into_iter().filter(|l| l.0 != 0x800).map(|l| l.1))
            }
            Item::Line { line: Line::Entry { id, .. } } => ids.push(*id),
            Item::Line { line: Line::Separator } => {}
        }
    }
    assert_eq!(ids.len(), 1 + 40 + 4 + 3 + 4);
    ids.sort();
    ids.dedup();
    assert_eq!(ids.len(), 52);
}

#[test]
fn window_entry_pins_its_window() {
    let mut st = state();
    let seen = vec![sight(1, "Notes"), sight(2, "Mail")];
    st.show_menu(&seen);
    assert_eq!(st.handle_command(1101), Reaction::Apply { run_at_startup: false });
    assert_eq!(st.settings.window_match, "Mail");
    assert_eq!((st.target, st.keep_w, st.notified), (0, 0, false));
    let menu = st.show_menu(&seen);
    assert_eq!(lines(&menu[0]).1[3].0, 8);
    assert_eq!(lines(&menu[0]).1[2].0, 0);
}

#[test]
fn numbers_of_windows_that_were_not_offered_change_nothing() {
    let mut st = state();
    st.menu_windows = vec!["Notes".to_string()];
    for cmd in [1101usize, 1139, 1140, 1199, 1200, 1205, 1300, 1304, 1400, 7, 0, usize::MAX] {
        assert_eq!(st.handle_command(cmd), Reaction::Apply { run_at_startup: false });
        assert_eq!(st.settings.window_match, "Telegram");
        assert_eq!((st.settings.edge, st.settings.width_mode), (0, 0));
        assert_eq!((st.target, st.keep_w, st.notified, st.bar_dirty), (9, 300, true, false));
    }
}

#[test]
fn automatic_choice_is_telegram() {
    let mut st = state();
    st.settings.window_match = "Notes".to_string();
    st.handle_command(1000);
    assert_eq!(st.settings.window_match, "Telegram");
    assert_eq!((st.target, st.keep_w, st.notified), (0, 0, false));
}

#[test]
fn edge_entry_sets_its_corner() {
    let corners = [(1201usize, 0usize, false), (1202, 0, true), (1203, 1, false), (1204, 1, true)];
    for (i, (cmd, edge, top)) in corners.into_iter().enumerate() {
        let mut st = state();
        st.handle_command(cmd);
        assert_eq!((st.settings.edge, st.settings.top), (edge, top));
        assert!(st.bar_dirty);
        assert_eq!((st.target, st.keep_w, st.keep_h, st.notified), (9, 300, 200, true));
        let menu = st.show_menu(&vec![]);
        for (j, line) in lines(&menu[1]).1.iter().enumerate() {
            assert_eq!(line.0, checked(i == j));
        }
    }
}

#[test]
fn corners_are_told_apart() {
    let mut s = Settings::default();
    for i in 0..4usize {
        s.set_corner(i);
        for j in 0..4usize {
            assert_eq!(s.at_corner(j), i == j);
        }
    }
    s.edge = 7;
    assert!((0..4usize).all(|j| !s.at_corner(j)));
}

#[test]
fn width_entry_sets_its_width() {
    for (cmd, mode) in [(1301usize, 0usize), (1302, 1), (1303, 2)] {
        let mut st = state();
        st.handle_command(cmd);
        assert_eq!(st.settings.width_mode, mode);
        assert_eq!((st.target, st.keep_w, st.notified, st.bar_dirty), (9, 0, true, true));
        assert_eq!(st.keep_h, 0);
        let menu = st.show_menu(&vec![]);
        let flags: Vec<u32> = lines(&menu[2]).1.iter().map(|l| l.0).collect();
        assert_eq!(flags.iter().position(|f| *f == 8), Some(mode));
        assert_eq!(flags.iter().filter(|f| **f == 8).count(), 1);
    }
}

#[test]
fn switches_switch_back() {
    let mut st = state();
    st.handle_command(1401);
    assert!(!st.settings.top_most);
    st.handle_command(1401);
    assert!(st.settings.top_most);
    assert_eq!(st.handle_command(1402), Reaction::Apply { run_at_startup: true });
    assert_eq!(st.handle_command(1402), Reaction::Apply { run_at_startup: false });
    assert!(!st.bar_dirty);
}

#[test]
fn pin_now_asks_for_the_strip_again() {
    let mut st = state();
    assert_eq!(st.handle_command(1403), Reaction::Apply { run_at_startup: false });
    assert!(st.bar_dirty);
    assert_eq!((st.target, st.keep_w), (9, 300));
}

#[test]
fn exit_changes_nothing() {
    let mut st = state();
    assert_eq!(st.handle_command(1404), Reaction::Exit);
    assert_eq!((st.target, st.keep_w, st.notified, st.bar_dirty), (9, 300, true, false));
    assert!(st.bar_registered);
}

#[test]
fn leaving_the_menu_chooses_nothing() {
    assert_eq!(chosen_command(0), None);
    assert_eq!(chosen_command(-1), None);
    assert_eq!(chosen_command(1404), Some(1404));
}

#[test]
fn reset_gives_the_window_up() {
    let mut st = state();
    st.reset_target();
    assert_eq!((st.target, st.keep_w, st.notified), (0, 0, false));
    assert_eq!(st.keep_h, 0);
    assert!(st.bar_registered && !st.bar_dirty);
}
