use cornerpin::icon::{choose_icon, create_icon, IconChoice};
use cornerpin::messages::{
    already_running, bar_answer, bar_proc, wnd_answer, wnd_proc, BarReply, WndReply, HELLO_TEXT,
    PIN_PERIOD,
};
use cornerpin::startup::{
    apply_startup, begin_startup, startup_ready, startup_value, StartupAction, StartupEvent,
    StartupPhase,
};
use cornerpin::tray::{balloon, bare_icon, new_icon, set_tip};
use cornerpin::win32::has_style;

#[test]
fn style_bits() {
    assert!(has_style(0x88, 0x8));
    assert!(has_style(i32::MIN | 0x80, 0x80));
    assert!(!has_style(0x77, 0x8 | 0x80));
}

fn shown(buf: &[u16]) -> String {
    let end = buf.iter().position(|u| *u == 0).unwrap();
    String::from_utf16(&buf[..end]).unwrap()
}

#[test]
fn icon_is_described_when_added() {
    let n = new_icon();
    assert_eq!((n.id, n.flags, n.callback, n.info_flags), (1, 7, 0x8001, 0));
    assert_eq!(shown(&n.tip), "CornerPin");
    assert!(n.info.iter().all(|u| *u == 0));
    assert!(n.info_title.iter().all(|u| *u == 0));
}

#[test]
fn icon_is_described_by_its_number_alone_when_removed() {
    let n = bare_icon();
    assert_eq!((n.id, n.flags, n.callback, n.info_flags), (1, 0, 0, 0));
    assert!(n.tip.iter().all(|u| *u == 0));
}

#[test]
fn tip_is_cut_to_its_buffer() {
    let n = set_tip("CornerPin · Telegram");
    assert_eq!((n.id, n.flags, n.callback, n.info_flags), (1, 4, 0, 0));
    assert_eq!(shown(&n.tip), "CornerPin · Telegram");
    let long = set_tip(&"a".repeat(200));
    assert_eq!(shown(&long.tip), "a".repeat(127));
}

#[test]
fn tips_are_shown_whole() {
    let title: String = "\u{1F4CC}".repeat(30);
    let tip = format!("CornerPin · {}", title);
    assert_eq!(shown(&set_tip(&tip).tip), tip);
}

#[test]
fn balloon_has_title_and_text() {
    let n = balloon("CornerPin", HELLO_TEXT);
    assert_eq!((n.id, n.flags, n.callback, n.info_flags), (1, 0x10, 0, 1));
    assert_eq!(shown(&n.info_title), "CornerPin");
    assert_eq!(shown(&n.info), HELLO_TEXT);
    let long = balloon(&"t".repeat(100), &"m".repeat(300));
    assert_eq!(shown(&long.info_title), "t".repeat(63));
    assert_eq!(shown(&long.info), "m".repeat(255));
}

#[test]
fn window_comes_back_within_half_a_second() {
    assert!(PIN_PERIOD <= 500);
}

#[test]
fn second_start_is_noticed() {
    assert!(already_running(1, 183));
    assert!(!already_running(0, 183));
    assert!(!already_running(1, 0));
}

#[test]
fn bar_lets_clicks_through() {
    assert_eq!(bar_proc(0x84, 0), BarReply::Answer { value: -1 });
    assert_eq!(bar_proc(0x14, 0), BarReply::Answer { value: 1 });
    assert_eq!(bar_proc(0xF, 0), BarReply::Paint);
    assert_eq!(bar_proc(0x8002, 1), BarReply::PositionChanged);
    assert_eq!(bar_proc(0x8002, 0), BarReply::Answer { value: 0 });
    assert_eq!(bar_proc(0x8001, 1), BarReply::Forward);
}

#[test]
fn main_window_serves_timers_and_icon() {
    assert_eq!(wnd_proc(0x113, 2, 0), WndReply::Hello);
    assert_eq!(wnd_proc(0x113, 1, 0), WndReply::Pin);
    assert_eq!(wnd_proc(0x113, 3, 0), WndReply::Ignore);
    assert_eq!(wnd_proc(0x8001, 1, 0x205), WndReply::Menu);
    assert_eq!(wnd_proc(0x8001, 1, 0x10205), WndReply::Menu);
    assert_eq!(wnd_proc(0x8001, 1, -0x10000 + 0x203), WndReply::Pin);
    assert_eq!(wnd_proc(0x8001, 1, 0x200), WndReply::Ignore);
    assert_eq!(wnd_proc(0x2, 0, 0), WndReply::Destroy);
    assert_eq!(wnd_proc(0x1, 0, 0), WndReply::Forward);
}

#[test]
fn bar_answers_its_messages() {
    assert_eq!(bar_answer(bar_proc(0x84, 0)), Some(-1));
    assert_eq!(bar_answer(bar_proc(0x14, 0)), Some(1));
    assert_eq!(bar_answer(bar_proc(0xF, 0)), Some(0));
    assert_eq!(bar_answer(bar_proc(0x8002, 1)), Some(0));
    assert_eq!(bar_answer(bar_proc(0x8002, 7)), Some(0));
    assert_eq!(bar_answer(bar_proc(0x113, 1)), None);
    assert_eq!(bar_answer(BarReply::Answer { value: 9 }), Some(9));
}

#[test]
fn main_window_answers_its_messages() {
    let handled = [(0x113, 2, 0), (0x113, 1, 0), (0x113, 3, 0), (0x8001, 1, 0x205)];
    for (msg, w, l) in handled {
        assert_eq!(wnd_answer(wnd_proc(msg, w, l)), Some(0));
    }
    assert_eq!(wnd_answer(wnd_proc(0x8001, 1, 0x200)), Some(0));
    assert_eq!(wnd_answer(wnd_proc(0x2, 0, 0)), Some(0));
    assert_eq!(wnd_answer(wnd_proc(0x8002, 1, 0)), None);
    assert_eq!(wnd_answer(wnd_proc(0xF, 0, 0)), None);
}

#[test]
fn stock_icon_stands_in_for_one_that_could_not_be_made() {
    assert_eq!(choose_icon(0), IconChoice::Stock);
    assert_eq!(choose_icon(77), IconChoice::Made { handle: 77 });
}

#[test]
fn picture_has_frame_and_window() {
    let icon = create_icon();
    assert_eq!((icon.width, icon.height, icon.planes, icon.bits_per_pixel), (32, 32, 1, 32));
    assert_eq!(icon.and_bits, vec![0u8; 128]);
    assert_eq!(icon.xor_bits.len(), 4096);
    for y in 0..32usize {
        for x in 0..32usize {
            let i = (y * 32 + x) * 4;
            let (mut b, mut g, mut r) = (32u8, 26u8, 24u8);
            if x < 2 || y < 2 || x >= 30 || y >= 30 {
                (b, g, r) = (255, 160, 90);
            }
            if x >= 18 && y >= 18 && x < 31 && y < 31 {
                (b, g, r) = (60, 150, 255);
            }
            assert_eq!(icon.xor_bits[i..i + 4], [b, g, r, 255]);
        }
    }
}

#[test]
fn value_is_the_quoted_path() {
    let path: Vec<u16> = "C:\\ş".encode_utf16().collect();
    let data = startup_value(&path);
    assert_eq!(
        data,
        vec![0x22, 0, 0x43, 0, 0x3A, 0, 0x5C, 0, 0x5F, 1, 0x22, 0, 0, 0]
    );
    let units: Vec<u16> =
        data.chunks(2).map(|c| c[0] as u16 + 256 * c[1] as u16).collect();
    assert_eq!(String::from_utf16(&units).unwrap(), "\"C:\\ş\"\0");
}

#[test]
fn startup_is_switched_on() {
    let (p, a) = begin_startup(true);
    assert_eq!(p, StartupPhase::Opening { enable: true });
    assert!(matches!(a, StartupAction::OpenKey));
    let (p, a) = apply_startup(p, StartupEvent::Status { code: 0 });
    assert!(matches!(a, StartupAction::ModulePath));
    let event = StartupEvent::Path { buf: vec![65, 66, 7, 7], n: 2 };
    assert!(startup_ready(p, &event));
    let (p, a) = apply_startup(p, event);
    match a {
        StartupAction::SetValue { data } => {
            assert_eq!(data, vec![0x22, 0, 65, 0, 66, 0, 0x22, 0, 0, 0])
        }
        _ => panic!("the value is to be set"),
    }
    let (p, a) = apply_startup(p, StartupEvent::Done);
    assert!(matches!(a, StartupAction::CloseKey));
    let (p, a) = apply_startup(p, StartupEvent::Done);
    assert!(matches!(a, StartupAction::Finish));
    assert_eq!(p, StartupPhase::Over);
}

#[test]
fn startup_is_switched_off() {
    let (p, _) = begin_startup(false);
    let (p, a) = apply_startup(p, StartupEvent::Status { code: 0 });
    assert!(matches!(a, StartupAction::DeleteValue));
    let (p, a) = apply_startup(p, StartupEvent::Done);
    assert!(matches!(a, StartupAction::CloseKey));
    let (p, _) = apply_startup(p, StartupEvent::Done);
    assert_eq!(p, StartupPhase::Over);
}

#[test]
fn key_that_cannot_be_opened_is_left_alone() {
    let (p, _) = begin_startup(true);
    let (p, a) = apply_startup(p, StartupEvent::Status { code: 5 });
    assert_eq!(p, StartupPhase::Over);
    assert!(matches!(a, StartupAction::Finish));
}

#[test]
fn unknown_path_sets_no_value() {
    let (p, a) = apply_startup(
        StartupPhase::Reading,
        StartupEvent::Path { buf: vec![0; 1024], n: 0 },
    );
    assert_eq!(p, StartupPhase::Closing);
    assert!(matches!(a, StartupAction::CloseKey));
}

#[test]
fn startup_answers_that_do_not_fit_are_not_accepted() {
    assert!(!startup_ready(
        StartupPhase::Reading,
        &StartupEvent::Path { buf: vec![0; 4], n: 5 }
    ));
    assert!(!startup_ready(StartupPhase::Over, &StartupEvent::Done));
    assert!(!startup_ready(StartupPhase::Changing, &StartupEvent::Status { code: 0 }));
}
