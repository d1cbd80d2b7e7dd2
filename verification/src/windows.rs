//! Which top-level windows can be pinned, and which of them is meant.

use crate::text;
use crate::win32;
use vstd::prelude::*;

verus! {

/// One top-level window as an enumeration of the desktop meets it. The null handle is 0.
pub struct Sighting {
    pub handle: usize,
    pub visible: bool,
    pub ex_style: i32,
    pub title: String,
}

/// A window that can be pinned.
pub struct Window {
    pub handle: usize,
    pub title: String,
}

/// A window that can be pinned, as a value.
pub ghost struct WindowModel {
    pub handle: usize,
    pub title: Seq<char>,
}

impl View for Window {
    type V = WindowModel;

    open spec fn view(&self) -> WindowModel {
        WindowModel { handle: self.handle, title: self.title@ }
    }
}

/// Only a visible window that is no tool window is looked at closer.
pub open spec fn eligible(visible: bool, ex_style: i32) -> bool {
    visible && !win32::style_has(ex_style, win32::WS_EX_TOOLWINDOW)
}

/// A window is listed if it is eligible and its title shows something.
pub open spec fn listed(s: Sighting) -> bool {
    eligible(s.visible, s.ex_style) && !text::blank(s.title@)
}

/// The windows that can be pinned, in the order in which they were met.
pub open spec fn listing(seen: Seq<Sighting>) -> Seq<WindowModel> {
    seen.filter(|s: Sighting| listed(s)).map_values(
        |s: Sighting| WindowModel { handle: s.handle, title: s.title@ },
    )
}

/// Is the window one whose title has to be read?
pub fn is_eligible(visible: bool, ex_style: i32) -> (yes: bool)
    ensures
        yes == eligible(visible, ex_style),
{
    visible && !win32::has_style(ex_style, win32::WS_EX_TOOLWINDOW)
}

/// Lists the windows that can be pinned.
pub fn list_windows(seen: &Vec<Sighting>) -> (out: Vec<Window>)
    ensures
        out@.map_values(|w: Window| w@) == listing(seen@),
{
    let mut out: Vec<Window> = Vec::new();
    assert(seen@.take(0).filter(|s: Sighting| listed(s)) =~= Seq::empty()) by {
        reveal(Seq::filter);
    }
    assert(out@.map_values(|w: Window| w@) =~= listing(seen@.take(0)));
    let mut i: usize = 0;
    while i < seen.len()
        invariant
            i <= seen.len(),
            out@.map_values(|w: Window| w@) == listing(seen@.take(i as int)),
        decreases seen.len() - i,
    {
        let s = &seen[i];
        let ghost before = out@;
        if is_eligible(s.visible, s.ex_style) && !text::is_blank(s.title.as_str()) {
            out.push(Window { handle: s.handle, title: s.title.clone() });
        }
        proof {
            let p = |s: Sighting| listed(s);
            let m = |s: Sighting| WindowModel { handle: s.handle, title: s.title@ };
            let part = seen@.take(i + 1);
            assert(part.drop_last() =~= seen@.take(i as int));
            reveal(Seq::filter);
            let kept = part.drop_last().filter(p);
            if listed(*s) {
                assert(part.filter(p) == kept.push(*s));
                assert(kept.push(*s).map_values(m) =~= kept.map_values(m).push(m(*s)));
                assert(out@.map_values(|w: Window| w@) =~= before.map_values(|w: Window| w@).push(
                    m(*s),
                ));
            } else {
                assert(part.filter(p) == kept);
            }
        }
        i = i + 1;
    }
    assert(seen@.take(seen@.len() as int) =~= seen@);
    out
}

/// Which of the titles is meant: the first that is the wanted text, else the first that has it as
/// a part.
pub open spec fn choice(titles: Seq<Seq<char>>, wanted: Seq<char>) -> Option<int> {
    if titles.contains(wanted) {
        titles.index_of_first(wanted)
    } else {
        titles.map_values(|t: Seq<char>| text::has_part(t, wanted)).index_of_first(true)
    }
}

/// Picks the title that is meant. Both sides are given in lowercase.
pub fn choose_title(titles: &Vec<String>, wanted: &String) -> (found: Option<usize>)
    ensures
        found is Some <==> choice(text::texts(titles@), wanted@) is Some,
        found matches Some(i) ==> choice(text::texts(titles@), wanted@) == Some(i as int),
{
    let ghost all = text::texts(titles@);
    let ghost parts = all.map_values(|t: Seq<char>| text::has_part(t, wanted@));
    proof {
        all.index_of_first_ensures(wanted@);
        parts.index_of_first_ensures(true);
    }
    let mut i: usize = 0;
    while i < titles.len()
        invariant
            i <= titles.len(),
            all == text::texts(titles@),
            forall|k: int| 0 <= k < i ==> #[trigger] all[k] != wanted@,
            all.contains(wanted@) ==> all.index_of_first(wanted@) is Some,
            all.index_of_first(wanted@) matches Some(k) ==> 0 <= k < all.len() && all[k] == wanted@
                && (forall|j: int| 0 <= j < k ==> all[j] != wanted@),
        decreases titles.len() - i,
    {
        assert(all[i as int] == titles@[i as int]@);
        if titles[i] == *wanted {
            return Some(i);
        }
        i = i + 1;
    }
    assert(!all.contains(wanted@));
    let mut j: usize = 0;
    while j < titles.len()
        invariant
            j <= titles.len(),
            all == text::texts(titles@),
            parts == all.map_values(|t: Seq<char>| text::has_part(t, wanted@)),
            !all.contains(wanted@),
            forall|k: int| 0 <= k < j ==> !#[trigger] parts[k],
            parts.contains(true) ==> parts.index_of_first(true) is Some,
            parts.index_of_first(true) matches Some(k) ==> 0 <= k < parts.len() && parts[k] && (
            forall|l: int| 0 <= l < k ==> !parts[l]),
        decreases titles.len() - j,
    {
        assert(parts[j as int] == text::has_part(titles@[j as int]@, wanted@));
        if text::contains(titles[j].as_str(), wanted.as_str()) {
            return Some(j);
        }
        j = j + 1;
    }
    assert(!parts.contains(true));
    None
}

/// The titles of a listing, in lowercase.
pub open spec fn lowered(windows: Seq<WindowModel>) -> Seq<Seq<char>> {
    windows.map_values(|w: WindowModel| text::lowercase(w.title))
}

/// The handle of the window that a text means among those that were met, or 0. Letter case does
/// not count.
pub open spec fn target(seen: Seq<Sighting>, m: Seq<char>) -> usize {
    match choice(lowered(listing(seen)), text::lowercase(m)) {
        Some(i) => listing(seen)[i].handle,
        None => 0,
    }
}

/// Finds the window that a text means.
pub fn find_target(seen: &Vec<Sighting>, m: &str) -> (handle: usize)
    ensures
        handle == target(seen@, m@),
{
    let wins = list_windows(seen);
    let ghost model = wins@.map_values(|w: Window| w@);
    let ml = m.to_lowercase();
    let mut titles: Vec<String> = Vec::new();
    let mut i: usize = 0;
    while i < wins.len()
        invariant
            i <= wins.len(),
            model == wins@.map_values(|w: Window| w@),
            text::texts(titles@) == lowered(model.take(i as int)),
            titles.len() == i,
        decreases wins.len() - i,
    {
        let ghost before = titles@;
        let lower = wins[i].title.as_str().to_lowercase();
        titles.push(lower);
        proof {
            assert(text::texts(titles@) =~= text::texts(before).push(lower@));
            assert(lowered(model.take(i + 1)) =~= lowered(model.take(i as int)).push(lower@));
        }
        i = i + 1;
    }
    assert(model.take(model.len() as int) =~= model);
    proof {
        choice_is_the_first_best(lowered(model), ml@);
    }
    match choose_title(&titles, &ml) {
        Some(k) => wins[k].handle,
        None => 0,
    }
}

/// What `choice` picks: a title that is the wanted text goes before all that only have it as a
/// part, an earlier title before a later one, and nothing is picked only where no title has it.
pub proof fn choice_is_the_first_best(titles: Seq<Seq<char>>, wanted: Seq<char>)
    ensures
        match choice(titles, wanted) {
            Some(i) => {
                &&& 0 <= i < titles.len()
                &&& text::has_part(titles[i], wanted)
                &&& titles.contains(wanted) ==> titles[i] == wanted
                &&& forall|j: int|
                    0 <= j < i ==> if titles.contains(wanted) {
                        #[trigger] titles[j] != wanted
                    } else {
                        !text::has_part(titles[j], wanted)
                    }
            },
            None => forall|j: int|
                0 <= j < titles.len() ==> !text::has_part(#[trigger] titles[j], wanted),
        },
{
    let parts = titles.map_values(|t: Seq<char>| text::has_part(t, wanted));
    titles.index_of_first_ensures(wanted);
    parts.index_of_first_ensures(true);
    text::text_has_itself(wanted);
    assert forall|j: int| 0 <= j < titles.len() implies parts[j] == text::has_part(
        #[trigger] titles[j],
        wanted,
    ) by {}
    if !titles.contains(wanted) && !parts.contains(true) {
        assert forall|j: int| 0 <= j < titles.len() implies !text::has_part(
            #[trigger] titles[j],
            wanted,
        ) by {
            assert(parts.contains(parts[j]) || !parts[j]);
        }
    }
}

/// A window that is found was met, is visible, is no tool window, and its title, letter case
/// aside, has the wanted text as a part.
pub proof fn found_window_was_met(seen: Seq<Sighting>, m: Seq<char>)
    requires
        target(seen, m) != 0,
    ensures
        exists|k: int|
            0 <= k < seen.len() && (#[trigger] seen[k]).handle == target(seen, m) && listed(seen[k])
                && text::has_part(text::lowercase(seen[k].title@), text::lowercase(m)),
{
    let p = |s: Sighting| listed(s);
    let kept = seen.filter(p);
    choice_is_the_first_best(lowered(listing(seen)), text::lowercase(m));
    let i = choice(lowered(listing(seen)), text::lowercase(m))->0;
    seen.lemma_filter_contains_rev(p, kept[i]);
    seen.lemma_filter_pred(p, i);
    let k = choose|k: int| 0 <= k < seen.len() && seen[k] == kept[i];
    assert(seen[k].handle == target(seen, m));
}

/// Three things decide whether a window is listed, and nothing else does: it is visible, the bit
/// for tool windows is not set in its style, and its title has a character that is no white space.
pub proof fn visible_titled_windows_are_listed(s: Sighting)
    ensures
        eligible(s.visible, s.ex_style) <==> s.visible && s.ex_style & 0x80 == 0,
        listed(s) <==> s.visible && s.ex_style & 0x80 == 0 && exists|i: int|
            0 <= i < s.title@.len() && !text::white_space(#[trigger] s.title@[i]),
{
}

/// A window that is met after the others is listed after them, with its handle and its title, if it
/// is visible, no tool window and titled; otherwise the list stays as it was. Where nothing is met,
/// nothing is listed.
pub proof fn windows_are_listed_in_order(seen: Seq<Sighting>, s: Sighting)
    ensures
        listing(Seq::empty()) == Seq::<WindowModel>::empty(),
        s.visible && s.ex_style & 0x80 == 0 && (exists|i: int|
            0 <= i < s.title@.len() && !text::white_space(#[trigger] s.title@[i])) ==> listing(
            seen.push(s),
        ) == listing(seen).push(WindowModel { handle: s.handle, title: s.title@ }),
        !s.visible || s.ex_style & 0x80 != 0 || (forall|i: int|
            0 <= i < s.title@.len() ==> text::white_space(#[trigger] s.title@[i])) ==> listing(
            seen.push(s),
        ) == listing(seen),
{
    let p = |s: Sighting| listed(s);
    let m = |s: Sighting| WindowModel { handle: s.handle, title: s.title@ };
    reveal(Seq::filter);
    visible_titled_windows_are_listed(s);
    assert(listing(Seq::empty()) =~= Seq::<WindowModel>::empty());
    assert(seen.push(s).drop_last() =~= seen);
    if listed(s) {
        assert(seen.push(s).filter(p) == seen.filter(p).push(s));
        assert(listing(seen.push(s)) =~= listing(seen).push(m(s)));
    } else {
        assert(seen.push(s).filter(p) == seen.filter(p));
    }
}

/// No window is left out: each one that is visible, whose style has the bit for tool windows clear,
/// whatever its other bits are, and whose title shows something, stands in the list.
pub proof fn no_window_is_left_out(seen: Seq<Sighting>, k: int, i: int) -> (at: int)
    requires
        0 <= k < seen.len(),
        seen[k].visible,
        seen[k].ex_style & 0x80 == 0,
        0 <= i < seen[k].title@.len(),
        !text::white_space(seen[k].title@[i]),
    ensures
        0 <= at < listing(seen).len(),
        listing(seen)[at].handle == seen[k].handle,
        listing(seen)[at].title == seen[k].title@,
    decreases seen.len(),
{
    let last = seen.last();
    let front = seen.drop_last();
    assert(front.push(last) =~= seen);
    windows_are_listed_in_order(front, last);
    visible_titled_windows_are_listed(last);
    visible_titled_windows_are_listed(seen[k]);
    if k == seen.len() - 1 {
        listing(front).len() as int
    } else {
        no_window_is_left_out(front, k, i)
    }
}

/// Nothing else stands in the list: each of its windows was met, visible, without the bit for tool
/// windows, and with a title that shows something.
pub proof fn listed_window_was_met(seen: Seq<Sighting>, at: int) -> (k: int)
    requires
        0 <= at < listing(seen).len(),
    ensures
        0 <= k < seen.len(),
        seen[k].visible,
        seen[k].ex_style & 0x80 == 0,
        exists|i: int|
            0 <= i < seen[k].title@.len() && !text::white_space(#[trigger] seen[k].title@[i]),
        listing(seen)[at].handle == seen[k].handle,
        listing(seen)[at].title == seen[k].title@,
    decreases seen.len(),
{
    if seen.len() == 0 {
        windows_are_listed_in_order(seen, arbitrary());
        assert(seen =~= Seq::empty());
        0
    } else {
        let last = seen.last();
        let front = seen.drop_last();
        assert(front.push(last) =~= seen);
        windows_are_listed_in_order(front, last);
        visible_titled_windows_are_listed(last);
        if at < listing(front).len() {
            listed_window_was_met(front, at)
        } else {
            seen.len() - 1
        }
    }
}

/// The first of the windows with a property that are listed is the first listed one that was met
/// with it.
proof fn lemma_first_listed(seen: Seq<Sighting>, q: spec_fn(Seq<char>) -> bool, k: int) -> (at: int)
    requires
        0 <= k < seen.len(),
        listed(seen[k]) && q(seen[k].title@),
        forall|j: int| 0 <= j < k && listed(#[trigger] seen[j]) ==> !q(seen[j].title@),
    ensures
        0 <= at < listing(seen).len(),
        listing(seen)[at].handle == seen[k].handle,
        listing(seen)[at].title == seen[k].title@,
        forall|j: int| 0 <= j < at ==> !q((#[trigger] listing(seen)[j]).title),
    decreases seen.len(),
{
    let last = seen.last();
    let front = seen.drop_last();
    assert(front.push(last) =~= seen);
    windows_are_listed_in_order(front, last);
    visible_titled_windows_are_listed(last);
    if k == seen.len() - 1 {
        assert forall|j: int| 0 <= j < listing(front).len() implies !q(
            (#[trigger] listing(seen)[j]).title,
        ) by {
            let m = listed_window_was_met(front, j);
            visible_titled_windows_are_listed(front[m]);
            assert(listed(seen[m]));
            assert(listing(seen)[j] == listing(front)[j]);
        }
        listing(front).len() as int
    } else {
        assert forall|j: int| 0 <= j < k && listed(#[trigger] front[j]) implies !q(
            front[j].title@,
        ) by {
            assert(front[j] == seen[j]);
        }
        let at = lemma_first_listed(front, q, k);
        assert forall|j: int| 0 <= j < at implies !q((#[trigger] listing(seen)[j]).title) by {
            assert(listing(seen)[j] == listing(front)[j]);
        }
        at
    }
}

/// Of the windows that are listed, the first one whose title is the wanted text, letter case aside,
/// is found, wherever it stands among those that only have the text as a part.
pub proof fn first_exact_title_is_found(seen: Seq<Sighting>, m: Seq<char>, k: int)
    requires
        0 <= k < seen.len(),
        listed(seen[k]),
        text::lowercase(seen[k].title@) == text::lowercase(m),
        forall|j: int|
            0 <= j < k && listed(#[trigger] seen[j]) ==> text::lowercase(seen[j].title@)
                != text::lowercase(m),
    ensures
        target(seen, m) == seen[k].handle,
{
    let q = |t: Seq<char>| text::lowercase(t) == text::lowercase(m);
    let at = lemma_first_listed(seen, q, k);
    let low = lowered(listing(seen));
    assert(low[at] == text::lowercase(m));
    assert(low.contains(text::lowercase(m)));
    choice_is_the_first_best(low, text::lowercase(m));
    text::text_has_itself(text::lowercase(m));
    assert(text::has_part(low[at], text::lowercase(m)));
    let i = choice(low, text::lowercase(m))->0;
    if i < at {
        assert(!q(listing(seen)[i].title));
    }
}

/// Where no listed window has the wanted text as its title, the first one that has it as a part of
/// its title is found, letter case aside.
pub proof fn first_partial_title_is_found(seen: Seq<Sighting>, m: Seq<char>, k: int)
    requires
        0 <= k < seen.len(),
        listed(seen[k]),
        text::has_part(text::lowercase(seen[k].title@), text::lowercase(m)),
        forall|j: int|
            0 <= j < seen.len() && listed(#[trigger] seen[j]) ==> text::lowercase(seen[j].title@)
                != text::lowercase(m),
        forall|j: int|
            0 <= j < k && listed(#[trigger] seen[j]) ==> !text::has_part(
                text::lowercase(seen[j].title@),
                text::lowercase(m),
            ),
    ensures
        target(seen, m) == seen[k].handle,
{
    let ml = text::lowercase(m);
    let q = |t: Seq<char>| text::has_part(text::lowercase(t), ml);
    let at = lemma_first_listed(seen, q, k);
    let low = lowered(listing(seen));
    if low.contains(ml) {
        let i = choose|i: int| 0 <= i < low.len() && low[i] == ml;
        let j = listed_window_was_met(seen, i);
        visible_titled_windows_are_listed(seen[j]);
        assert(listed(seen[j]));
    }
    choice_is_the_first_best(low, ml);
    assert(text::has_part(low[at], ml));
    let i = choice(low, ml)->0;
    if i < at {
        assert(!q(listing(seen)[i].title));
    }
}

/// A window that has the wanted text in its title is not passed over: where one was met that is
/// visible, is no tool window and has a title that shows something and, letter case aside, is put
/// together around the text, the window that is found is such a one too. So none is found only
/// where there is none.
pub proof fn window_with_the_text_is_found(
    seen: Seq<Sighting>,
    m: Seq<char>,
    k: int,
    i: int,
    before: Seq<char>,
    behind: Seq<char>,
) -> (found: int)
    requires
        0 <= k < seen.len(),
        seen[k].visible,
        seen[k].ex_style & 0x80 == 0,
        0 <= i < seen[k].title@.len(),
        !text::white_space(seen[k].title@[i]),
        text::lowercase(seen[k].title@) == before + text::lowercase(m) + behind,
    ensures
        0 <= found < seen.len(),
        seen[found].visible,
        seen[found].ex_style & 0x80 == 0,
        target(seen, m) == seen[found].handle,
        exists|a: Seq<char>, b: Seq<char>|
            text::lowercase(seen[found].title@) == #[trigger] (a + text::lowercase(m) + b),
{
    let ml = text::lowercase(m);
    let low = lowered(listing(seen));
    let at = no_window_is_left_out(seen, k, i);
    text::part_is_found_anywhere(before, ml, behind);
    choice_is_the_first_best(low, ml);
    assert(text::has_part(low[at], ml));
    let c = choice(low, ml)->0;
    let found = listed_window_was_met(seen, c);
    let (a, b) = text::found_part_splits_the_text(low[c], ml);
    assert(text::lowercase(seen[found].title@) == a + ml + b);
    found
}

/// Where no listed window has the wanted text in its title, none is found.
pub proof fn nothing_is_found_without_the_text(seen: Seq<Sighting>, m: Seq<char>)
    requires
        forall|j: int|
            0 <= j < seen.len() && listed(#[trigger] seen[j]) ==> !text::has_part(
                text::lowercase(seen[j].title@),
                text::lowercase(m),
            ),
    ensures
        target(seen, m) == 0,
{
    let ml = text::lowercase(m);
    let low = lowered(listing(seen));
    choice_is_the_first_best(low, ml);
    if choice(low, ml) is Some {
        let c = choice(low, ml)->0;
        let j = listed_window_was_met(seen, c);
        visible_titled_windows_are_listed(seen[j]);
        assert(listed(seen[j]));
        assert(low[c] == text::lowercase(seen[j].title@));
    }
}

/// A window as a value has its handle and its title.
pub proof fn window_shows_what_it_holds(w: Window)
    ensures
        w@.handle == w.handle,
        w@.title == w.title@,
{
}

} // verus!
