//! The menu of the tray icon.

use crate::commands;
use crate::settings;
use crate::settings::{Settings, SettingsModel};
use crate::state::{State, StateModel, MENU_WINDOWS};
use crate::text;
use crate::win32;
use crate::windows;
use crate::windows::{Sighting, Window, WindowModel};
use vstd::prelude::*;
use vstd::string::*;

verus! {

/// A line of a menu that opens nothing.
pub enum Line<T> {
    Entry { flags: u32, id: usize, text: T },
    Separator,
}

/// A line of the main menu.
pub enum Item {
    Line { line: Line<String> },
    /// A line that opens a menu of its own.
    Popup { text: String, lines: Vec<Line<String>> },
}

/// A line of the main menu as a value.
pub ghost enum ItemModel {
    Line { line: Line<Seq<char>> },
    Popup { text: Seq<char>, lines: Seq<Line<Seq<char>>> },
}

impl View for Line<String> {
    type V = Line<Seq<char>>;

    open spec fn view(&self) -> Line<Seq<char>> {
        match *self {
            Line::Entry { flags, id, text } => Line::Entry { flags, id, text: text@ },
            Line::Separator => Line::Separator,
        }
    }
}

/// The views of the lines of a menu.
pub open spec fn line_models(v: Seq<Line<String>>) -> Seq<Line<Seq<char>>> {
    v.map_values(|l: Line<String>| l@)
}

impl View for Item {
    type V = ItemModel;

    open spec fn view(&self) -> ItemModel {
        match *self {
            Item::Line { line } => ItemModel::Line { line: line@ },
            Item::Popup { text, lines } => ItemModel::Popup {
                text: text@,
                lines: line_models(lines@),
            },
        }
    }
}

/// The views of the lines of the main menu.
pub open spec fn item_models(v: Seq<Item>) -> Seq<ItemModel> {
    v.map_values(|i: Item| i@)
}

/// The flag of an entry that has a check mark or not.
pub open spec fn check_flag(b: bool) -> u32 {
    if b {
        win32::MF_CHECKED
    } else {
        0
    }
}

/// The flag for a check mark.
pub fn checked(b: bool) -> (flag: u32)
    ensures
        flag == check_flag(b),
{
    if b {
        win32::MF_CHECKED
    } else {
        0
    }
}

/// An entry with a check mark or without one.
pub open spec fn entry_model(check: bool, id: int, text: Seq<char>) -> Line<Seq<char>> {
    Line::Entry { flags: check_flag(check), id: id as usize, text }
}

/// An entry with a check mark or without one.
fn entry(check: bool, id: usize, text: String) -> (line: Line<String>)
    ensures
        line@ == entry_model(check, id as int, text@),
{
    let flags: u32 = win32::MF_STRING | checked(check);
    assert(0u32 | 0x8u32 == 0x8u32 && 0u32 | 0u32 == 0u32) by (bit_vector);
    Line::Entry { flags, id, text }
}

/// The menu of the windows: the automatic choice, then those that can be pinned. The one that is
/// chosen has a check mark; letter case does not count.
pub open spec fn window_lines(
    titles: Seq<Seq<char>>,
    lower_titles: Seq<Seq<char>>,
    lower_match: Seq<char>,
) -> Seq<Line<Seq<char>>> {
    seq![
        entry_model(
            lower_match == "telegram"@,
            commands::ID_AUTO as int,
            "Telegram (Otomatik)"@,
        ),
        Line::Separator,
    ] + Seq::new(
        titles.len(),
        |i: int|
            entry_model(
                lower_titles[i] == lower_match,
                commands::ID_WIN_BASE + i,
                text::abridged(titles[i], 50),
            ),
    )
}

/// The menu of the corners.
pub open spec fn edge_lines(s: SettingsModel) -> Seq<Line<Seq<char>>> {
    Seq::new(
        commands::EDGES as nat,
        |i: int|
            entry_model(
                s.is_corner(i),
                commands::ID_EDGE_BASE + 1 + i,
                settings::edge_text(settings::corner_edge(i), settings::corner_top(i)),
            ),
    )
}

/// The menu of the sizes.
pub open spec fn width_lines(width_mode: usize) -> Seq<Line<Seq<char>>> {
    Seq::new(
        commands::WIDTHS as nat,
        |i: int|
            entry_model(
                width_mode == i,
                commands::ID_WIDTH_BASE + 1 + i,
                settings::width_text(i as usize),
            ),
    )
}

/// The main menu, for the given titles. The lowercase forms of the titles and of the text by which
/// the window is found are given too.
pub open spec fn menu_model(
    s: SettingsModel,
    titles: Seq<Seq<char>>,
    lower_titles: Seq<Seq<char>>,
    lower_match: Seq<char>,
) -> Seq<ItemModel> {
    seq![
        ItemModel::Popup {
            text: "Pencere"@,
            lines: window_lines(titles, lower_titles, lower_match),
        },
        ItemModel::Popup { text: "Kenar"@, lines: edge_lines(s) },
        ItemModel::Popup { text: "Genişlik"@, lines: width_lines(s.width_mode) },
        ItemModel::Line { line: Line::Separator },
        ItemModel::Line {
            line: entry_model(s.top_most, commands::ID_TOPMOST as int, "Her Zaman Üstte"@),
        },
        ItemModel::Line {
            line: entry_model(
                s.run_at_startup,
                commands::ID_STARTUP as int,
                "Windows İle Başlat"@,
            ),
        },
        ItemModel::Line { line: Line::Separator },
        ItemModel::Line { line: entry_model(false, commands::ID_PINNOW as int, "Şimdi Sabitle"@) },
        ItemModel::Line { line: entry_model(false, commands::ID_EXIT as int, "Çıkış"@) },
    ]
}

/// Builds the menu of the windows.
fn build_window_lines(titles: &Vec<String>, lower_titles: &Vec<String>, lower_match: &String) -> (v:
    Vec<Line<String>>)
    requires
        titles@.len() == lower_titles@.len() <= MENU_WINDOWS,
    ensures
        line_models(v@) == window_lines(
            text::texts(titles@),
            text::texts(lower_titles@),
            lower_match@,
        ),
{
    let mut v: Vec<Line<String>> = Vec::new();
    let auto_checked = lower_match.eq(&"telegram".to_owned());
    v.push(entry(auto_checked, commands::ID_AUTO, "Telegram (Otomatik)".to_owned()));
    v.push(Line::Separator);
    let ghost all = window_lines(text::texts(titles@), text::texts(lower_titles@), lower_match@);
    assert(line_models(v@) =~= all.take(2));
    let mut i: usize = 0;
    while i < titles.len()
        invariant
            i <= titles.len(),
            titles@.len() == lower_titles@.len() <= MENU_WINDOWS,
            all == window_lines(text::texts(titles@), text::texts(lower_titles@), lower_match@),
            line_models(v@) == all.take(2 + i),
        decreases titles.len() - i,
    {
        let ghost before = v@;
        let check = lower_titles[i] == *lower_match;
        let line = entry(check, commands::ID_WIN_BASE + i, text::abridge(titles[i].as_str(), 50));
        v.push(line);
        proof {
            assert(text::texts(titles@)[i as int] == titles@[i as int]@);
            assert(text::texts(lower_titles@)[i as int] == lower_titles@[i as int]@);
            assert(all[2 + i] == line@);
            assert(line_models(v@) =~= line_models(before).push(line@));
            assert(all.take(2 + i + 1) =~= all.take(2 + i).push(line@));
        }
        i = i + 1;
    }
    assert(all.take(all.len() as int) =~= all);
    v
}

/// Builds the main menu, for the given titles and lowercase forms.
pub fn build_menu(
    s: &Settings,
    titles: &Vec<String>,
    lower_titles: &Vec<String>,
    lower_match: &String,
) -> (items: Vec<Item>)
    requires
        titles@.len() == lower_titles@.len() <= MENU_WINDOWS,
    ensures
        item_models(items@) == menu_model(
            s@,
            text::texts(titles@),
            text::texts(lower_titles@),
            lower_match@,
        ),
{
    let window_menu = build_window_lines(titles, lower_titles, lower_match);
    let mut edge_menu: Vec<Line<String>> = Vec::new();
    let mut i: usize = 0;
    while i < commands::EDGES
        invariant
            i <= commands::EDGES,
            line_models(edge_menu@) == edge_lines(s@).take(i as int),
        decreases commands::EDGES - i,
    {
        let ghost before = edge_menu@;
        let line = entry(
            s.at_corner(i),
            commands::ID_EDGE_BASE + 1 + i,
            settings::edge_name(i / 2, i % 2 == 1).to_owned(),
        );
        edge_menu.push(line);
        proof {
            assert(line_models(edge_menu@) =~= line_models(before).push(line@));
            assert(edge_lines(s@).take(i + 1) =~= edge_lines(s@).take(i as int).push(
                line@,
            ));
        }
        i = i + 1;
    }
    let mut width_menu: Vec<Line<String>> = Vec::new();
    let mut j: usize = 0;
    while j < commands::WIDTHS
        invariant
            j <= commands::WIDTHS,
            line_models(width_menu@) == width_lines(s.width_mode).take(j as int),
        decreases commands::WIDTHS - j,
    {
        let ghost before = width_menu@;
        let line = entry(
            s.width_mode == j,
            commands::ID_WIDTH_BASE + 1 + j,
            settings::width_name(j).to_owned(),
        );
        width_menu.push(line);
        proof {
            assert(line_models(width_menu@) =~= line_models(before).push(line@));
            assert(width_lines(s.width_mode).take(j + 1) =~= width_lines(s.width_mode).take(
                j as int,
            ).push(line@));
        }
        j = j + 1;
    }
    assert(line_models(edge_menu@) =~= edge_lines(s@));
    assert(line_models(width_menu@) =~= width_lines(s.width_mode));
    let items = vec![
        Item::Popup { text: "Pencere".to_owned(), lines: window_menu },
        Item::Popup { text: "Kenar".to_owned(), lines: edge_menu },
        Item::Popup { text: "Genişlik".to_owned(), lines: width_menu },
        Item::Line { line: Line::Separator },
        Item::Line { line: entry(s.top_most, commands::ID_TOPMOST, "Her Zaman Üstte".to_owned()) },
        Item::Line {
            line: entry(s.run_at_startup, commands::ID_STARTUP, "Windows İle Başlat".to_owned()),
        },
        Item::Line { line: Line::Separator },
        Item::Line { line: entry(false, commands::ID_PINNOW, "Şimdi Sabitle".to_owned()) },
        Item::Line { line: entry(false, commands::ID_EXIT, "Çıkış".to_owned()) },
    ];
    assert(item_models(items@) =~= menu_model(
        s@,
        text::texts(titles@),
        text::texts(lower_titles@),
        lower_match@,
    ));
    items
}

/// The titles that the menu offers: those of the first windows that can be pinned.
pub open spec fn offered(seen: Seq<Sighting>) -> Seq<Seq<char>> {
    text::first(
        windows::listing(seen).map_values(|w: WindowModel| w.title),
        MENU_WINDOWS as nat,
    )
}

impl State {
    /// Builds the menu for the windows of the desktop and remembers which titles it offers.
    pub fn show_menu(&mut self, seen: &Vec<Sighting>) -> (items: Vec<Item>)
        ensures
            final(self)@ == (StateModel { menu_windows: offered(seen@), ..old(self)@ }),
            item_models(items@) == menu_model(
                old(self)@.settings,
                offered(seen@),
                offered(seen@).map_values(|t: Seq<char>| text::lowercase(t)),
                text::lowercase(old(self)@.settings.window_match),
            ),
            old(self)@.wf() ==> final(self)@.wf(),
    {
        let wins = windows::list_windows(seen);
        let ghost all = windows::listing(seen@).map_values(|w: WindowModel| w.title);
        let n: usize = if wins.len() < MENU_WINDOWS {
            wins.len()
        } else {
            MENU_WINDOWS
        };
        let mut titles: Vec<String> = Vec::new();
        let mut lower_titles: Vec<String> = Vec::new();
        let ghost low = |t: Seq<char>| text::lowercase(t);
        let mut i: usize = 0;
        while i < n
            invariant
                i <= n <= wins.len(),
                titles.len() == i,
                lower_titles.len() == i,
                wins@.map_values(|w: Window| w@) == windows::listing(seen@),
                all == windows::listing(seen@).map_values(|w: WindowModel| w.title),
                low == |t: Seq<char>| text::lowercase(t),
                text::texts(titles@) == all.take(i as int),
                text::texts(lower_titles@) == all.take(i as int).map_values(low),
            decreases n - i,
        {
            let ghost before = titles@;
            let ghost before_low = lower_titles@;
            let title = wins[i].title.clone();
            lower_titles.push(title.as_str().to_lowercase());
            titles.push(title);
            proof {
                assert(windows::listing(seen@)[i as int] == wins@[i as int]@);
                assert(text::texts(titles@) =~= text::texts(before).push(all[i as int]));
                assert(all.take(i + 1) =~= all.take(i as int).push(all[i as int]));
                assert(text::texts(lower_titles@) =~= text::texts(before_low).push(
                    low(all[i as int]),
                ));
                assert(all.take(i + 1).map_values(low) =~= all.take(i as int).map_values(low).push(
                    low(all[i as int]),
                ));
            }
            i = i + 1;
        }
        assert(all.take(n as int) =~= offered(seen@));
        let cur = self.settings.window_match.as_str().to_lowercase();
        let items = build_menu(&self.settings, &titles, &lower_titles, &cur);
        self.menu_windows = titles;
        items
    }
}

/// All lines of the menu, those of the menus that it opens first.
pub open spec fn all_lines(items: Seq<ItemModel>) -> Seq<Line<Seq<char>>>
    decreases items.len(),
{
    if items.len() == 0 {
        Seq::empty()
    } else {
        let head = match items[0] {
            ItemModel::Line { line } => seq![line],
            ItemModel::Popup { lines, .. } => lines,
        };
        head + all_lines(items.skip(1))
    }
}

/// The lines of the menu, menu by menu.
proof fn lemma_all_lines(
    s: SettingsModel,
    titles: Seq<Seq<char>>,
    lower_titles: Seq<Seq<char>>,
    lower_match: Seq<char>,
)
    ensures
        ({
            let items = menu_model(s, titles, lower_titles, lower_match);
            all_lines(items) == window_lines(titles, lower_titles, lower_match) + edge_lines(s)
                + width_lines(s.width_mode) + seq![
                items[3]->line,
                items[4]->line,
                items[5]->line,
                items[6]->line,
                items[7]->line,
                items[8]->line,
            ]
        }),
{
    let items = menu_model(s, titles, lower_titles, lower_match);
    reveal_with_fuel(all_lines, 10);
    assert(items.skip(1).skip(1) =~= items.skip(2));
    assert(items.skip(2).skip(1) =~= items.skip(3));
    assert(items.skip(3).skip(1) =~= items.skip(4));
    assert(items.skip(4).skip(1) =~= items.skip(5));
    assert(items.skip(5).skip(1) =~= items.skip(6));
    assert(items.skip(6).skip(1) =~= items.skip(7));
    assert(items.skip(7).skip(1) =~= items.skip(8));
    assert(items.skip(8).skip(1) =~= items.skip(9));
    assert(all_lines(items) =~= window_lines(titles, lower_titles, lower_match) + edge_lines(s)
        + width_lines(s.width_mode) + seq![
        items[3]->line,
        items[4]->line,
        items[5]->line,
        items[6]->line,
        items[7]->line,
        items[8]->line,
    ]);
}

/// No two entries of the menu stand for the same command.
pub proof fn entries_are_told_apart(
    s: SettingsModel,
    titles: Seq<Seq<char>>,
    lower_titles: Seq<Seq<char>>,
    lower_match: Seq<char>,
    i: int,
    j: int,
)
    requires
        titles.len() <= MENU_WINDOWS,
        0 <= i < j < all_lines(menu_model(s, titles, lower_titles, lower_match)).len(),
    ensures
        ({
            let lines = all_lines(menu_model(s, titles, lower_titles, lower_match));
            lines[i] is Entry && lines[j] is Entry ==> lines[i]->id != lines[j]->id
        }),
{
    lemma_all_lines(s, titles, lower_titles, lower_match);
}

/// The entry of a window pins that window: the command that it stands for chooses the title that
/// it was offered for, and from then on the entry has the check mark.
pub proof fn window_entry_pins_its_window(
    s: StateModel,
    lower_match: Seq<char>,
    i: int,
)
    requires
        s.menu_windows.len() <= MENU_WINDOWS,
        0 <= i < s.menu_windows.len(),
    ensures
        ({
            let titles = s.menu_windows;
            let lower = titles.map_values(|t: Seq<char>| text::lowercase(t));
            let line = window_lines(titles, lower, lower_match)[2 + i];
            let t = commands::after_command(s, line->id);
            let then_lines = window_lines(
                titles,
                lower,
                text::lowercase(t.settings.window_match),
            );
            &&& line is Entry
            &&& line->text == text::abridged(titles[i], 50)
            &&& t.settings.window_match == titles[i]
            &&& t.target == 0
            &&& then_lines[2 + i]->flags == win32::MF_CHECKED
        }),
{
}

/// The entry of a corner chooses that corner, and from then on it alone has the check mark.
pub proof fn edge_entry_sets_its_corner(s: StateModel, i: int, j: int)
    requires
        0 <= i < commands::EDGES,
        0 <= j < commands::EDGES,
    ensures
        ({
            let line = edge_lines(s.settings)[i];
            let t = commands::after_command(s, line->id);
            &&& line is Entry
            &&& line->text == settings::edge_text(t.settings.edge, t.settings.top)
            &&& t.settings.is_corner(i)
            &&& edge_lines(t.settings)[j]->flags == check_flag(i == j)
        }),
{
}

/// The entry of a size chooses that size, and from then on it alone has the check mark.
pub proof fn width_entry_sets_its_width(s: StateModel, i: int, j: int)
    requires
        0 <= i < commands::WIDTHS,
        0 <= j < commands::WIDTHS,
    ensures
        ({
            let line = width_lines(s.settings.width_mode)[i];
            let t = commands::after_command(s, line->id);
            &&& line is Entry
            &&& line->text == settings::width_text(i as usize)
            &&& t.settings.width_mode == i
            &&& width_lines(t.settings.width_mode)[j]->flags == check_flag(i == j)
        }),
{
}

/// The menu of the windows starts with the automatic choice and a separator; then come the titles
/// that are offered, each under a number of its own, cut behind fifty characters. An entry has the
/// check mark exactly if its lowercase title is the lowercase text that the window is found by; the
/// automatic choice stands for Telegram.
pub proof fn window_menu_marks_the_chosen_title(
    s: SettingsModel,
    titles: Seq<Seq<char>>,
    lower_titles: Seq<Seq<char>>,
    lower_match: Seq<char>,
    i: int,
)
    requires
        titles.len() <= 40,
    ensures
        ({
            let item = menu_model(s, titles, lower_titles, lower_match)[0];
            &&& item matches ItemModel::Popup { text, lines } && {
                &&& text == "Pencere"@
                &&& lines.len() == titles.len() + 2
                &&& lines[0] is Entry && lines[0]->id == 1000
                &&& lines[0]->text == "Telegram (Otomatik)"@
                &&& lines[0]->flags == 8 <==> lower_match == "telegram"@
                &&& lines[0]->flags == 0 || lines[0]->flags == 8
                &&& lines[1] is Separator
                &&& 0 <= i < titles.len() ==> {
                    &&& lines[2 + i] is Entry && lines[2 + i]->id == 1100 + i
                    &&& lines[2 + i]->flags == 8 <==> lower_titles[i] == lower_match
                    &&& lines[2 + i]->flags == 0 || lines[2 + i]->flags == 8
                    &&& titles[i].len() <= 50 ==> lines[2 + i]->text == titles[i]
                    &&& titles[i].len() > 50 ==> lines[2 + i]->text == titles[i].take(50).push('…')
                }
            }
        }),
{
}

/// The menu of the corners names the four corners in their order. The check mark stands at a corner
/// exactly if both the edge and the end that are chosen are those of the corner.
pub proof fn corner_menu_marks_the_chosen_corner(
    s: SettingsModel,
    titles: Seq<Seq<char>>,
    lower_titles: Seq<Seq<char>>,
    lower_match: Seq<char>,
)
    ensures
        ({
            let item = menu_model(s, titles, lower_titles, lower_match)[1];
            let mark = |b: bool|
                if b {
                    8u32
                } else {
                    0u32
                };
            &&& item matches ItemModel::Popup { text, lines } && {
                &&& text == "Kenar"@
                &&& lines == seq![
                    Line::Entry {
                        flags: mark(s.edge == 0 && !s.top),
                        id: 1201usize,
                        text: "Sağ Alt"@,
                    },
                    Line::Entry {
                        flags: mark(s.edge == 0 && s.top),
                        id: 1202usize,
                        text: "Sağ Üst"@,
                    },
                    Line::Entry {
                        flags: mark(s.edge == 1 && !s.top),
                        id: 1203usize,
                        text: "Sol Alt"@,
                    },
                    Line::Entry {
                        flags: mark(s.edge == 1 && s.top),
                        id: 1204usize,
                        text: "Sol Üst"@,
                    },
                ]
            }
        }),
{
}

/// The menu of the sizes names the three sizes in their order. The check mark stands at a size
/// exactly if it is the chosen one.
pub proof fn size_menu_marks_the_chosen_size(
    s: SettingsModel,
    titles: Seq<Seq<char>>,
    lower_titles: Seq<Seq<char>>,
    lower_match: Seq<char>,
)
    ensures
        ({
            let item = menu_model(s, titles, lower_titles, lower_match)[2];
            let mark = |b: bool|
                if b {
                    8u32
                } else {
                    0u32
                };
            &&& item matches ItemModel::Popup { text, lines } && {
                &&& text == "Genişlik"@
                &&& lines == seq![
                    Line::Entry {
                        flags: mark(s.width_mode == 0),
                        id: 1301usize,
                        text: "Mevcut Boyut"@,
                    },
                    Line::Entry {
                        flags: mark(s.width_mode == 1),
                        id: 1302usize,
                        text: "Tam Yükseklik 420 px"@,
                    },
                    Line::Entry {
                        flags: mark(s.width_mode == 2),
                        id: 1303usize,
                        text: "Tam Yükseklik 520 px"@,
                    },
                ]
            }
        }),
{
}

/// Each of the two switches has the check mark exactly if what it is named after is on; the other
/// entries below the menus have none.
pub proof fn switches_show_what_is_on(
    s: SettingsModel,
    titles: Seq<Seq<char>>,
    lower_titles: Seq<Seq<char>>,
    lower_match: Seq<char>,
)
    ensures
        ({
            let items = menu_model(s, titles, lower_titles, lower_match);
            let top_most = items[4]->line;
            let startup = items[5]->line;
            &&& items.len() == 9
            &&& items[3] == ItemModel::Line { line: Line::Separator }
            &&& items[4] is Line && top_most is Entry
            &&& top_most->id == 1401 && top_most->text == "Her Zaman Üstte"@
            &&& s.top_most ==> top_most->flags == 8
            &&& !s.top_most ==> top_most->flags == 0
            &&& items[5] is Line && startup is Entry
            &&& startup->id == 1402 && startup->text == "Windows İle Başlat"@
            &&& s.run_at_startup ==> startup->flags == 8
            &&& !s.run_at_startup ==> startup->flags == 0
            &&& items[6] == ItemModel::Line { line: Line::Separator }
            &&& items[7] == ItemModel::Line {
                line: Line::Entry { flags: 0, id: 1403, text: "Şimdi Sabitle"@ },
            }
            &&& items[8] == ItemModel::Line {
                line: Line::Entry { flags: 0, id: 1404, text: "Çıkış"@ },
            }
        }),
{
}

/// Choosing a switch turns its own check mark over and changes no other line of the menu.
pub proof fn switch_turns_its_own_mark_over(
    s: StateModel,
    titles: Seq<Seq<char>>,
    lower_titles: Seq<Seq<char>>,
    lower_match: Seq<char>,
    k: int,
)
    requires
        0 <= k < 9,
    ensures
        ({
            let now = menu_model(s.settings, titles, lower_titles, lower_match);
            let t = commands::after_command(s, now[4]->line->id);
            let u = commands::after_command(s, now[5]->line->id);
            let topped = menu_model(t.settings, titles, lower_titles, lower_match);
            let started = menu_model(u.settings, titles, lower_titles, lower_match);
            &&& topped[4]->line->flags != now[4]->line->flags
            &&& k != 4 ==> topped[k] == now[k]
            &&& started[5]->line->flags != now[5]->line->flags
            &&& k != 5 ==> started[k] == now[k]
        }),
{
    let now = menu_model(s.settings, titles, lower_titles, lower_match);
    let t = commands::after_command(s, now[4]->line->id);
    let u = commands::after_command(s, now[5]->line->id);
    commands::other_commands_switch_or_do_nothing(s, 1401);
    commands::other_commands_switch_or_do_nothing(s, 1402);
    assert(edge_lines(t.settings) =~= edge_lines(s.settings));
    assert(edge_lines(u.settings) =~= edge_lines(s.settings));
}

/// The menu offers the titles of the windows that can be pinned, in their order, and no more than
/// forty.
pub proof fn first_forty_windows_are_offered(seen: Seq<Sighting>, i: int)
    ensures
        ({
            let all = windows::listing(seen);
            &&& all.len() <= 40 ==> offered(seen).len() == all.len()
            &&& all.len() > 40 ==> offered(seen).len() == 40
            &&& 0 <= i < all.len() && i < 40 ==> offered(seen)[i] == all[i].title
        }),
{
}

/// An entry with a check mark has the flag for it, and one without has none.
pub proof fn check_mark_is_one_flag(b: bool)
    ensures
        b ==> check_flag(b) == 8,
        !b ==> check_flag(b) == 0,
{
}

/// A menu as a value has the lines, numbers, flags and texts of the menu.
pub proof fn menu_shows_what_it_holds(line: Line<String>, item: Item, items: Seq<Item>, i: int)
    ensures
        line is Separator <==> line@ is Separator,
        line is Entry ==> line@->flags == line->flags && line@->id == line->id && line@->text
            == line->text@,
        item matches Item::Line { line: inner } ==> item@ == (ItemModel::Line { line: inner@ }),
        item matches Item::Popup { text, lines } ==> {
            &&& item@ is Popup && item@->text == text@
            &&& item@->lines.len() == lines@.len()
            &&& 0 <= i < lines@.len() ==> item@->lines[i] == lines@[i]@
        },
        item_models(items).len() == items.len(),
        0 <= i < items.len() ==> item_models(items)[i] == items[i]@,
{
}

} // verus!
