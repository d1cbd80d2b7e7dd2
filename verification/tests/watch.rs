use cornerpin::appbar::{BarAction, BarEvent, BarPhase, BarStep, Release};
use cornerpin::geometry::{compare_place, cut_end, cut_strip, has_sides, has_strip, rects_equal, Rect};
use cornerpin::pin::{Action, Event, Phase};
use cornerpin::settings::Settings;
use cornerpin::state::State;
use cornerpin::windows::Sighting;

fn rect(left: i32, top: i32, right: i32, bottom: i32) -> Rect {
    Rect { left, top, right, bottom }
}

fn monitor() -> Rect {
    rect(0, 0, 1920, 1080)
}

fn telegram(handle: usize) -> Event {
    let seen = vec![Sighting {
        handle,
        visible: true,
        ex_style: 0,
        title: "Telegram (12)".to_string(),
    }];
    Event::Windows { seen }
}

fn step(st: &mut State, phase: Phase, event: Event) -> (Phase, Action<String>) {
    assert!(st.accepts(phase, &event));
    st.pin(phase, event)
}

/// A state in which window 9 is pinned to the right edge, 420 pixels wide.
fn pinned() -> State {
    let mut settings = Settings::default();
    settings.width_mode = 1;
    let mut st = State::new(settings, 5);
    st.target = 9;
    st.bar_registered = true;
    st.bar_dirty = false;
    st.bar_rect = rect(1500, 0, 1920, 1080);
    st.notified = true;
    st
}

#[test]
fn start_state_holds_nothing() {
    let st = State::new(Settings::default(), 5);
    assert_eq!(st.target, 0);
    assert_eq!(st.bar, 5);
    assert!(!st.bar_registered);
    assert!(st.bar_dirty);
    assert_eq!(st.bar_rect, Rect::zero());
    assert_eq!(st.keep_w, 0);
    assert!(!st.notified);
    assert!(st.menu_windows.is_empty());
}

#[test]
fn first_round_reserves_places_and_announces() {
    let mut st = State::new(Settings::default(), 5);
    let (p, a) = step(&mut st, Phase::Idle, Event::Tick);
    assert!(matches!(a, Action::ListWindows));
    let (p, a) = step(&mut st, p, telegram(9));
    assert_eq!(st.target, 9);
    assert!(matches!(a, Action::IsIconic { handle: 9 }));
    let (p, a) = step(&mut st, p, Event::Flag { on: false });
    assert!(matches!(a, Action::IsZoomed { handle: 9 }));
    let (p, a) = step(&mut st, p, Event::Flag { on: false });
    assert!(matches!(a, Action::WindowRect { handle: 9 }));
    let (p, a) = step(&mut st, p, Event::Rect { rect: rect(100, 100, 600, 700) });
    assert_eq!((st.keep_w, st.keep_h), (500, 600));
    assert!(matches!(a, Action::MonitorRect { handle: 9 }));
    let (p, a) = step(&mut st, p, Event::Rect { rect: monitor() });
    assert!(matches!(a, Action::Bar { action: BarAction::Register { bar: 5 } }));
    let (p, a) = step(&mut st, p, Event::Done);
    assert!(st.bar_registered);
    match a {
        Action::Bar { action: BarAction::QueryPos { bar, edge, rect: r } } => {
            assert_eq!((bar, edge, r), (5, 2, rect(1420, 0, 1920, 1080)));
        }
        _ => panic!("a proposal is due"),
    }
    let (p, a) = step(&mut st, p, Event::Rect { rect: rect(1420, 0, 1880, 1040) });
    match a {
        Action::Bar { action: BarAction::SetPos { bar, edge, rect: r } } => {
            assert_eq!((bar, edge, r), (5, 2, rect(1380, 0, 1880, 1040)));
        }
        _ => panic!("the strip is to be taken"),
    }
    let (p, a) = step(&mut st, p, Event::Rect { rect: rect(1380, 0, 1880, 1040) });
    match a {
        Action::Bar { action: BarAction::Move { bar, x, y, w, h } } => {
            assert_eq!((bar, x, y, w, h), (5, 1380, 0, 500, 1040));
        }
        _ => panic!("the bar is to be moved"),
    }
    let (p, a) = step(&mut st, p, Event::Done);
    assert!(!st.bar_dirty);
    assert_eq!(st.bar_rect, rect(1380, 0, 1880, 1040));
    assert!(matches!(a, Action::Placement { handle: 9 }));
    let (p, a) = step(
        &mut st,
        p,
        Event::Placement { rect: rect(100, 100, 600, 700), ex_style: 0 },
    );
    match a {
        Action::Place { handle, topmost, x, y, w, h } => {
            assert_eq!((handle, topmost, x, y, w, h), (9, true, 1380, 440, 500, 600));
        }
        _ => panic!("the window is to be moved"),
    }
    let (p, a) = step(&mut st, p, Event::Done);
    assert!(st.notified);
    match a {
        Action::Balloon { title, msg } => {
            assert_eq!(title, "CornerPin");
            assert_eq!(
                msg,
                "Telegram Sağ kenarına sabitlendi. Diğer pencereler artık onun alanına giremez."
            );
        }
        _ => panic!("a balloon is due"),
    }
    let (p, a) = step(&mut st, p, Event::Done);
    assert!(matches!(a, Action::Title { handle: 9 }));
    let title = "Telegram - ".repeat(4);
    let (p, a) = step(&mut st, p, Event::Title { title });
    assert_eq!(p, Phase::Idle);
    match a {
        Action::SetTip { tip } => assert_eq!(tip, "CornerPin · Telegram - Telegram - Telegram"),
        _ => panic!("a tip is due"),
    }
}

#[test]
fn lost_window_frees_the_strip() {
    let mut st = pinned();
    st.settings.window_match = "A very long text to wait for".to_string();
    let (p, a) = step(&mut st, Phase::Idle, Event::Tick);
    assert!(matches!(a, Action::IsWindow { handle: 9 }));
    let (p, a) = step(&mut st, p, Event::Flag { on: false });
    assert!(matches!(a, Action::ListWindows));
    let (p, a) = step(&mut st, p, telegram(4));
    match a {
        Action::Release { release } => {
            assert_eq!(release, Release { bar: 5, remove: true, hide: true })
        }
        _ => panic!("the strip is to be given up"),
    }
    assert_eq!((st.target, st.keep_w, st.keep_h), (0, 0, 0));
    assert!(!st.bar_registered && st.bar_dirty);
    assert_eq!(st.bar_rect, Rect::zero());
    let (p, a) = step(&mut st, p, Event::Done);
    assert_eq!(p, Phase::Idle);
    match a {
        Action::SetTip { tip } => assert_eq!(tip, "CornerPin · Bekleniyor: A very long text to "),
        _ => panic!("a tip is due"),
    }
}

#[test]
fn minimized_and_maximized_window_is_restored_and_moved_back() {
    let mut st = pinned();
    let (p, _) = step(&mut st, Phase::Idle, Event::Tick);
    let (p, _) = step(&mut st, p, Event::Flag { on: true });
    let (p, a) = step(&mut st, p, Event::Flag { on: true });
    assert!(matches!(a, Action::Restore { handle: 9 }));
    let (p, a) = step(&mut st, p, Event::Done);
    assert!(matches!(a, Action::IsZoomed { handle: 9 }));
    let (p, a) = step(&mut st, p, Event::Flag { on: true });
    assert!(matches!(a, Action::Restore { handle: 9 }));
    let (p, a) = step(&mut st, p, Event::Done);
    assert!(matches!(a, Action::MonitorRect { handle: 9 }));
    let (p, a) = step(&mut st, p, Event::Rect { rect: monitor() });
    assert!(matches!(a, Action::Placement { handle: 9 }));
    let (_, a) = step(&mut st, p, Event::Placement { rect: rect(0, 0, 420, 1080), ex_style: 8 });
    assert!(matches!(a, Action::Place { handle: 9, x: 1500, y: 0, w: 420, h: 1080, .. }));
}

#[test]
fn round_without_change_moves_nothing() {
    let mut st = pinned();
    let (p, _) = step(&mut st, Phase::Idle, Event::Tick);
    let (p, _) = step(&mut st, p, Event::Flag { on: true });
    let (p, _) = step(&mut st, p, Event::Flag { on: false });
    let (p, a) = step(&mut st, p, Event::Flag { on: false });
    assert!(matches!(a, Action::MonitorRect { handle: 9 }));
    let (p, a) = step(&mut st, p, Event::Rect { rect: monitor() });
    assert!(matches!(a, Action::Placement { handle: 9 }));
    let (_, a) = step(&mut st, p, Event::Placement { rect: rect(1501, 1, 1921, 1081), ex_style: 8 });
    assert!(matches!(a, Action::Title { handle: 9 }));
    assert_eq!(st.bar_rect, rect(1500, 0, 1920, 1080));
}

#[test]
fn window_is_placed_again_where_it_is_not_shown_as_wanted() {
    let mut st = pinned();
    let place = Phase::Placing { rect: rect(1500, 0, 1920, 1080) };
    let at = rect(1500, 0, 1920, 1080);
    let (_, a) = step(&mut st, place, Event::Placement { rect: at, ex_style: 0 });
    assert!(matches!(a, Action::Place { topmost: true, .. }));
    st.settings.top_most = false;
    let (_, a) = step(&mut st, place, Event::Placement { rect: at, ex_style: 8 });
    assert!(matches!(a, Action::Place { topmost: false, .. }));
    let (_, a) = step(&mut st, place, Event::Placement { rect: at, ex_style: 0 });
    assert!(matches!(a, Action::Title { .. }));
}

#[test]
fn narrow_window_gets_the_least_width() {
    let mut st = State::new(Settings::default(), 5);
    st.target = 9;
    let (p, a) = step(&mut st, Phase::Zoomed, Event::Flag { on: false });
    assert!(matches!(a, Action::WindowRect { handle: 9 }));
    let (p, _) = step(&mut st, p, Event::Rect { rect: Rect::zero() });
    assert_eq!(st.keep_w, 280);
    assert_eq!(p, Phase::Bar { phase: BarPhase::Begin { width: 280 } });
}

#[test]
fn kept_width_is_not_measured_again() {
    let mut st = State::new(Settings::default(), 5);
    st.target = 9;
    st.keep_w = 333;
    let (p, a) = step(&mut st, Phase::Zoomed, Event::Flag { on: false });
    assert!(matches!(a, Action::MonitorRect { handle: 9 }));
    assert_eq!(p, Phase::Bar { phase: BarPhase::Begin { width: 333 } });
    st.settings.width_mode = 2;
    let (p, _) = step(&mut st, Phase::RestoringZoomed, Event::Done);
    assert_eq!(p, Phase::Bar { phase: BarPhase::Begin { width: 520 } });
    st.settings.width_mode = 7;
    let (p, _) = step(&mut st, Phase::RestoringZoomed, Event::Done);
    assert_eq!(p, Phase::Bar { phase: BarPhase::Begin { width: 333 } });
}

#[test]
fn dirty_strip_is_proposed_again() {
    let mut st = pinned();
    st.position_changed();
    assert!(st.bar_dirty);
    let begin = BarPhase::Begin { width: 420 };
    let event = BarEvent::Rect { rect: monitor() };
    assert!(st.appbar_accepts(begin, event));
    let wanted = rect(1500, 0, 1920, 1080);
    assert_eq!(
        st.appbar_ensure(begin, event),
        BarStep::Ask {
            phase: BarPhase::Querying { width: 420 },
            action: BarAction::QueryPos { bar: 5, edge: 2, rect: wanted },
        }
    );
    st.bar_dirty = false;
    assert_eq!(st.appbar_ensure(begin, event), BarStep::Ready { rect: wanted });
}

#[test]
fn every_edge_but_the_first_is_the_left_one() {
    let mut st = pinned();
    st.settings.edge = 4;
    let step = st.appbar_ensure(BarPhase::Begin { width: 420 }, BarEvent::Rect { rect: monitor() });
    assert_eq!(
        step,
        BarStep::Ask {
            phase: BarPhase::Querying { width: 420 },
            action: BarAction::QueryPos { bar: 5, edge: 0, rect: rect(0, 0, 420, 1080) },
        }
    );
}

#[test]
fn release_is_final() {
    let mut st = pinned();
    assert_eq!(st.appbar_release(), Release { bar: 5, remove: true, hide: true });
    assert_eq!(st.appbar_release(), Release { bar: 5, remove: false, hide: true });
    st.bar = 0;
    assert_eq!(st.appbar_release(), Release { bar: 0, remove: false, hide: false });
}

#[test]
fn adopting_no_window_releases() {
    let mut st = pinned();
    let (p, a) = st.adopt_target(0);
    assert_eq!(p, Phase::Releasing);
    assert!(matches!(a, Action::Release { .. }));
    let (p, a) = st.adopt_target(11);
    assert_eq!(p, Phase::Iconic);
    assert!(matches!(a, Action::IsIconic { handle: 11 }));
}

#[test]
fn answers_that_do_not_fit_are_not_accepted() {
    let st = pinned();
    assert!(!st.accepts(Phase::Idle, &Event::Done));
    assert!(!st.accepts(Phase::Iconic, &Event::Tick));
    let far = rect(i32::MIN, 0, i32::MAX, 0);
    assert!(!st.accepts(Phase::Measuring, &Event::Rect { rect: far }));
    assert!(st.accepts(Phase::Measuring, &Event::Rect { rect: monitor() }));
    let placing = Phase::Placing { rect: monitor() };
    let off = Event::Placement { rect: rect(-1, i32::MIN, 0, 0), ex_style: 0 };
    assert!(!st.accepts(placing, &off));
    let bar = Phase::Bar { phase: BarPhase::Begin { width: 420 } };
    assert!(!st.accepts(bar, &Event::Rect { rect: rect(0, 0, i32::MIN, 0) }));
    assert!(!st.accepts(bar, &Event::Done));
    let setting = Phase::Bar { phase: BarPhase::Setting };
    assert!(!st.accepts(setting, &Event::Rect { rect: far }));
}

#[test]
fn strips_lie_at_their_edge() {
    assert_eq!(cut_strip(&monitor(), true, 420), rect(1500, 0, 1920, 1080));
    assert_eq!(cut_strip(&monitor(), false, 420), rect(0, 0, 420, 1080));
    let left = rect(-1280, 10, 0, 1034);
    assert_eq!(cut_strip(&left, true, 280), rect(-280, 10, 0, 1034));
    assert!(has_strip(&monitor(), true, 420));
    assert!(!has_strip(&rect(0, 0, i32::MIN, 0), true, 1));
    assert!(!has_strip(&rect(i32::MAX, 0, 0, 0), false, 1));
}

#[test]
fn rectangles_compare_by_all_sides() {
    let r = rect(1, 2, 3, 4);
    assert!(rects_equal(&r, &rect(1, 2, 3, 4)));
    assert!(!rects_equal(&r, &rect(0, 2, 3, 4)));
    assert!(!rects_equal(&r, &rect(1, 0, 3, 4)));
    assert!(!rects_equal(&r, &rect(1, 2, 0, 4)));
    assert!(!rects_equal(&r, &rect(1, 2, 3, 0)));
    assert!(has_sides(&r));
    assert!(!has_sides(&rect(0, i32::MIN, 0, 1)));
}

#[test]
fn one_pixel_is_tolerated() {
    let place = rect(100, 100, 200, 300);
    assert_eq!(compare_place(&place, &place), Some(false));
    assert_eq!(compare_place(&rect(101, 99, 202, 298), &place), Some(false));
    assert_eq!(compare_place(&rect(102, 100, 202, 300), &place), Some(true));
    assert_eq!(compare_place(&rect(100, 98, 200, 298), &place), Some(true));
    assert_eq!(compare_place(&rect(100, 100, 202, 300), &place), Some(true));
    assert_eq!(compare_place(&rect(100, 100, 200, 298), &place), Some(true));
    assert_eq!(compare_place(&rect(i32::MIN, 0, 0, 0), &place), None);
    assert_eq!(compare_place(&rect(0, i32::MIN, 0, 0), &place), Some(true));
}

#[test]
fn longest_round_takes_sixteen_answers() {
    let mut st = State::new(Settings::default(), 5);
    st.target = 3;
    let place = rect(1380, 0, 1880, 1040);
    let answers = vec![
        Event::Flag { on: false },
        telegram(9),
        Event::Flag { on: true },
        Event::Done,
        Event::Flag { on: true },
        Event::Done,
        Event::Rect { rect: rect(0, 0, 500, 500) },
        Event::Rect { rect: monitor() },
        Event::Done,
        Event::Rect { rect: place },
        Event::Rect { rect: place },
        Event::Done,
        Event::Placement { rect: rect(0, 0, 500, 500), ex_style: 0 },
        Event::Done,
        Event::Done,
        Event::Title { title: "Telegram".to_string() },
    ];
    assert_eq!(answers.len(), 16);
    let (mut p, _) = step(&mut st, Phase::Idle, Event::Tick);
    for answer in answers {
        assert!(p != Phase::Idle);
        p = step(&mut st, p, answer).0;
    }
    assert_eq!(p, Phase::Idle);
    assert_eq!((st.target, st.keep_w, st.keep_h, st.notified), (9, 500, 500, true));
    assert!(st.bar_registered && !st.bar_dirty);
    assert_eq!(st.bar_rect, place);
}

/// A state in which window 9 keeps its size of 400 by 300 pixels.
fn own_size(edge: usize, top: bool) -> State {
    let mut st = pinned();
    st.settings.width_mode = 0;
    st.settings.edge = edge;
    st.settings.top = top;
    st.keep_w = 400;
    st.keep_h = 300;
    st
}

#[test]
fn window_of_its_own_size_stands_in_its_corner() {
    let strip = rect(1520, 0, 1920, 1080);
    let cases = [(false, 780), (true, 0)];
    for (top, y) in cases {
        let mut st = own_size(0, top);
        st.bar_rect = strip;
        assert_eq!(st.place(&strip), Some(rect(1520, y, 1920, y + 300)));
        let placing = Phase::Placing { rect: strip };
        let full = Event::Placement { rect: strip, ex_style: 8 };
        let (_, a) = step(&mut st, placing, full);
        match a {
            Action::Place { handle, topmost, x, y: at, w, h } => {
                assert_eq!((handle, topmost, x, at, w, h), (9, true, 1520, y, 400, 300));
            }
            _ => panic!("the window is to be moved"),
        }
        let there = Event::Placement { rect: rect(1520, y, 1920, y + 300), ex_style: 8 };
        let (_, a) = step(&mut st, placing, there);
        assert!(matches!(a, Action::Title { handle: 9 }));
    }
}

#[test]
fn only_fixed_widths_take_the_full_height() {
    let strip = rect(0, 0, 420, 1040);
    let mut st = own_size(1, true);
    assert_eq!(st.place(&strip), Some(rect(0, 0, 420, 300)));
    st.settings.width_mode = 1;
    assert_eq!(st.place(&strip), Some(strip));
    st.settings.width_mode = 2;
    assert_eq!(st.place(&strip), Some(strip));
    st.settings.width_mode = 5;
    assert_eq!(st.place(&strip), Some(rect(0, 0, 420, 300)));
}

#[test]
fn height_is_cut_to_that_of_the_strip() {
    let strip = rect(0, 40, 400, 340);
    assert_eq!(cut_end(&strip, 300, true), Some(strip));
    assert_eq!(cut_end(&strip, 301, false), Some(strip));
    assert_eq!(cut_end(&strip, 100, true), Some(rect(0, 40, 400, 140)));
    assert_eq!(cut_end(&strip, 100, false), Some(rect(0, 240, 400, 340)));
    assert_eq!(cut_end(&rect(0, i32::MIN, 0, 1), 5, true), None);
    assert_eq!(cut_end(&rect(i32::MIN, 0, 1, 0), 5, true), None);
}

#[test]
fn corner_changes_the_place_but_not_the_reserved_edge() {
    let mut low = own_size(0, false);
    let mut high = own_size(0, true);
    let begin = BarPhase::Begin { width: 400 };
    let event = BarEvent::Rect { rect: monitor() };
    assert_eq!(low.appbar_ensure(begin, event), high.appbar_ensure(begin, event));
    let strip = rect(1520, 0, 1920, 1080);
    assert!(low.place(&strip) != high.place(&strip));
}

#[test]
fn announcement_names_the_edge() {
    let mut st = own_size(1, true);
    st.notified = false;
    let (_, a) = step(&mut st, Phase::Moving, Event::Done);
    match a {
        Action::Balloon { msg, .. } => {
            assert!(msg.starts_with("Telegram Sol kenarına sabitlendi."));
        }
        _ => panic!("a balloon is due"),
    }
}

/// Runs a round on its answers and gives the texts of the balloons that it shows.
fn balloons(st: &mut State, answers: Vec<Event>) -> Vec<String> {
    let mut shown = Vec::new();
    let (mut p, _) = step(st, Phase::Idle, Event::Tick);
    for answer in answers {
        assert!(p != Phase::Idle);
        let (next, a) = step(st, p, answer);
        if let Action::Balloon { msg, .. } = a {
            shown.push(msg);
        }
        p = next;
    }
    assert_eq!(p, Phase::Idle);
    shown
}

/// The answers for a pinned window that is where it belongs. The round asks once more where it
/// shows a balloon.
fn in_place(told: bool) -> Vec<Event> {
    let mut answers = vec![
        Event::Flag { on: true },
        Event::Flag { on: false },
        Event::Flag { on: false },
        Event::Rect { rect: monitor() },
        Event::Placement { rect: rect(1500, 0, 1920, 1080), ex_style: 8 },
    ];
    if told {
        answers.push(Event::Done);
    }
    answers.push(Event::Title { title: "Telegram".to_string() });
    answers
}

#[test]
fn round_announces_once() {
    let mut st = pinned();
    st.notified = false;
    let shown = balloons(&mut st, in_place(true));
    assert_eq!(shown.len(), 1);
    assert!(shown[0].starts_with("Telegram Sağ"));
    assert!(st.notified);
    assert!(balloons(&mut st, in_place(false)).is_empty());
    assert!(st.notified);
}

#[test]
fn round_without_a_window_announces_nothing() {
    let mut st = pinned();
    st.notified = false;
    let gone = vec![
        Event::Flag { on: false },
        Event::Windows { seen: vec![] },
        Event::Done,
    ];
    assert!(balloons(&mut st, gone).is_empty());
    assert!(!st.notified && st.target == 0);
}
