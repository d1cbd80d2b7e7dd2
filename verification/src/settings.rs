//! What the user has chosen.

use crate::commands;
use vstd::prelude::*;
use vstd::string::*;

verus! {

/// The text by which Telegram is found.
pub const TELEGRAM: &'static str = "Telegram";

/// The settings that are kept between runs.
pub struct Settings {
    /// The title, or a part of the title, of the window to pin.
    pub window_match: String,
    /// 0 is the right edge, everything else the left one.
    pub edge: usize,
    /// The upper corner of the edge, or else the lower one.
    pub top: bool,
    /// 1 is 420 pixels and full height, 2 is 520 pixels and full height, everything else the size
    /// that the window has.
    pub width_mode: usize,
    pub top_most: bool,
    pub run_at_startup: bool,
}

/// Settings as a value.
pub ghost struct SettingsModel {
    pub window_match: Seq<char>,
    pub edge: usize,
    pub top: bool,
    pub width_mode: usize,
    pub top_most: bool,
    pub run_at_startup: bool,
}

impl View for Settings {
    type V = SettingsModel;

    open spec fn view(&self) -> SettingsModel {
        SettingsModel {
            window_match: self.window_match@,
            edge: self.edge,
            top: self.top,
            width_mode: self.width_mode,
            top_most: self.top_most,
            run_at_startup: self.run_at_startup,
        }
    }
}

impl Clone for Settings {
    fn clone(&self) -> (s: Settings)
        ensures
            s@ == self@,
    {
        Settings {
            window_match: self.window_match.clone(),
            edge: self.edge,
            top: self.top,
            width_mode: self.width_mode,
            top_most: self.top_most,
            run_at_startup: self.run_at_startup,
        }
    }
}

/// The settings of a first run.
pub open spec fn first_settings() -> SettingsModel {
    SettingsModel {
        window_match: TELEGRAM@,
        edge: 0,
        top: false,
        width_mode: 0,
        top_most: true,
        run_at_startup: false,
    }
}

impl Default for Settings {
    fn default() -> (s: Settings)
        ensures
            s@ == first_settings(),
    {
        Settings {
            window_match: TELEGRAM.to_owned(),
            edge: 0,
            top: false,
            width_mode: 0,
            top_most: true,
            run_at_startup: false,
        }
    }
}

/// The settings to start with: those that the settings file holds, or those of a first run where
/// the file is missing or cannot be understood.
pub fn load_settings(stored: Option<Settings>) -> (s: Settings)
    ensures
        s@ == match stored {
            Some(kept) => kept@,
            None => first_settings(),
        },
{
    match stored {
        Some(kept) => kept,
        None => Settings::default(),
    }
}

/// The folder for settings below the folder for application data.
pub const SETTINGS_FOLDER: &'static str = "CornerPin";

/// The name of the settings file.
pub const SETTINGS_FILE: &'static str = "settings.json";

/// The steps of the path to the settings file, from the folder for application data on. Where
/// that folder is not known, the path starts at the current one.
pub fn settings_path(app_data: Option<String>) -> (steps: Vec<String>)
    ensures
        steps@.len() == 3,
        steps@[0]@ == match app_data {
            Some(folder) => folder@,
            None => "."@,
        },
        steps@[1]@ == SETTINGS_FOLDER@,
        steps@[2]@ == SETTINGS_FILE@,
{
    let base = match app_data {
        Some(folder) => folder,
        None => ".".to_owned(),
    };
    vec![base, SETTINGS_FOLDER.to_owned(), SETTINGS_FILE.to_owned()]
}

/// The edge of a corner. The corners are counted from the lower right one over the upper right and
/// the lower left one to the upper left one.
pub open spec fn corner_edge(i: int) -> usize {
    if i < 2 {
        0
    } else {
        1
    }
}

/// Is the corner an upper one?
pub open spec fn corner_top(i: int) -> bool {
    i == 1 || i == 3
}

impl SettingsModel {
    /// The corner is the chosen one.
    pub open spec fn is_corner(self, i: int) -> bool {
        self.edge == corner_edge(i) && self.top == corner_top(i)
    }
}

impl Settings {
    /// Is the corner the chosen one?
    pub fn at_corner(&self, i: usize) -> (yes: bool)
        ensures
            yes == self@.is_corner(i as int),
    {
        self.edge == (if i < 2 {
            0
        } else {
            1
        }) && self.top == (i == 1 || i == 3)
    }

    /// Chooses a corner.
    pub fn set_corner(&mut self, i: usize)
        ensures
            final(self)@ == (SettingsModel {
                edge: corner_edge(i as int),
                top: corner_top(i as int),
                ..old(self)@
            }),
    {
        self.edge = if i < 2 {
            0
        } else {
            1
        };
        self.top = i == 1 || i == 3;
    }
}

/// The name of the edge that a setting stands for.
pub open spec fn side_text(edge: usize) -> Seq<char> {
    if edge == 0 {
        "Sağ"@
    } else {
        "Sol"@
    }
}

/// Names an edge.
pub fn side_name(edge: usize) -> (name: &'static str)
    ensures
        name@ == side_text(edge),
{
    if edge == 0 {
        "Sağ"
    } else {
        "Sol"
    }
}

/// The name of the corner that two settings stand for.
pub open spec fn edge_text(edge: usize, top: bool) -> Seq<char> {
    if edge == 0 {
        if top {
            "Sağ Üst"@
        } else {
            "Sağ Alt"@
        }
    } else {
        if top {
            "Sol Üst"@
        } else {
            "Sol Alt"@
        }
    }
}

/// Names a corner.
pub fn edge_name(edge: usize, top: bool) -> (name: &'static str)
    ensures
        name@ == edge_text(edge, top),
{
    if edge == 0 {
        if top {
            "Sağ Üst"
        } else {
            "Sağ Alt"
        }
    } else {
        if top {
            "Sol Üst"
        } else {
            "Sol Alt"
        }
    }
}

/// The name of the size that a setting stands for.
pub open spec fn width_text(width_mode: usize) -> Seq<char> {
    if width_mode == 1 {
        "Tam Yükseklik 420 px"@
    } else if width_mode == 2 {
        "Tam Yükseklik 520 px"@
    } else {
        "Mevcut Boyut"@
    }
}

/// Names a size.
pub fn width_name(width_mode: usize) -> (name: &'static str)
    ensures
        name@ == width_text(width_mode),
{
    if width_mode == 1 {
        "Tam Yükseklik 420 px"
    } else if width_mode == 2 {
        "Tam Yükseklik 520 px"
    } else {
        "Mevcut Boyut"
    }
}

/// No settings stand for two corners, and the corners have different names.
pub proof fn corners_are_told_apart(s: SettingsModel, i: int, j: int)
    requires
        0 <= i < j < commands::EDGES,
    ensures
        !(s.is_corner(i) && s.is_corner(j)),
        edge_text(corner_edge(i), corner_top(i)) != edge_text(corner_edge(j), corner_top(j)),
{
    reveal_strlit("Sağ Alt");
    reveal_strlit("Sağ Üst");
    reveal_strlit("Sol Alt");
    reveal_strlit("Sol Üst");
    assert("Sağ Alt"@[1] == 'a' && "Sağ Üst"@[1] == 'a');
    assert("Sol Alt"@[1] == 'o' && "Sol Üst"@[1] == 'o');
    assert("Sağ Alt"@[4] == 'A' && "Sağ Üst"@[4] == 'Ü');
    assert("Sol Alt"@[4] == 'A' && "Sol Üst"@[4] == 'Ü');
}

/// The corners in their order: lower right, upper right, lower left, upper left. Settings stand for
/// a corner exactly if both their edge and their end are those of the corner.
pub proof fn corners_have_their_order(s: SettingsModel)
    ensures
        s.is_corner(0) <==> s.edge == 0 && !s.top,
        s.is_corner(1) <==> s.edge == 0 && s.top,
        s.is_corner(2) <==> s.edge == 1 && !s.top,
        s.is_corner(3) <==> s.edge == 1 && s.top,
        corner_edge(0) == 0 && corner_edge(1) == 0 && corner_edge(2) == 1 && corner_edge(3) == 1,
        !corner_top(0) && corner_top(1) && !corner_top(2) && corner_top(3),
{
}

/// Edge 0 is named right and every other edge left; the upper end is named so, and the lower one;
/// the first size is that of the window, and the two others say their width.
pub proof fn choices_are_named_after_what_they_mean(edge: usize, width_mode: usize)
    ensures
        edge == 0 ==> side_text(edge) == "Sağ"@ && edge_text(edge, false) == "Sağ Alt"@
            && edge_text(edge, true) == "Sağ Üst"@,
        edge != 0 ==> side_text(edge) == "Sol"@ && edge_text(edge, false) == "Sol Alt"@
            && edge_text(edge, true) == "Sol Üst"@,
        width_mode == 1 ==> width_text(width_mode) == "Tam Yükseklik 420 px"@,
        width_mode == 2 ==> width_text(width_mode) == "Tam Yükseklik 520 px"@,
        width_mode != 1 && width_mode != 2 ==> width_text(width_mode) == "Mevcut Boyut"@,
{
}

/// A first run looks for Telegram, in the lower right corner, in the size that the window has, above
/// the other windows, and not with Windows.
pub proof fn first_run_pins_telegram()
    ensures
        first_settings().window_match == "Telegram"@,
        first_settings().edge == 0,
        !first_settings().top,
        first_settings().width_mode == 0,
        first_settings().top_most,
        !first_settings().run_at_startup,
{
}

/// Settings as a value have what the settings have, each under its own name.
pub proof fn settings_show_what_they_hold(s: Settings)
    ensures
        s@.window_match == s.window_match@,
        s@.edge == s.edge,
        s@.top == s.top,
        s@.width_mode == s.width_mode,
        s@.top_most == s.top_most,
        s@.run_at_startup == s.run_at_startup,
{
}

} // verus!
