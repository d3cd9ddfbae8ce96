use std::sync::mpsc;
use whipclaude::audio::{AudioPlayer, SoundCategory};
use whipclaude::keyboard::MacroQueue;
use whipclaude::phrases::{roast_list, plea_list, Phrase};
use whipclaude::session::{Badge, CrackAction, FrameInput, Hint, Session, WhipState};

const MS: u64 = 1_000_000;
const SEC: u64 = 1_000_000_000;

fn quiet(now: u64) -> FrameInput {
    FrameInput {
        now,
        close_requested: false,
        escape_pressed: false,
        quit_chosen: false,
        respawn_chosen: false,
        tray_clicked: false,
        middle_clicked: false,
        primary_clicked: false,
    }
}

#[test]
fn new_session_asks_for_a_whip() {
    let s = Session::new(7);
    assert_eq!(s.whip, WhipState::Absent);
    assert!(s.spawn_requested);
    assert!(s.first_frame);
    assert_eq!(s.total_cracks, 0);
    assert_eq!(s.day_start, 7);
    assert_eq!(s.window_start, 7);
}

#[test]
fn first_frame_maximizes_and_spawns() {
    let mut s = Session::new(0);
    let cmds = s.begin_frame(quiet(10 * MS));
    assert!(!cmds.quit);
    assert!(cmds.maximize);
    assert!(cmds.spawn_whip);
    assert_eq!(s.whip, WhipState::Held);
    assert!(!s.spawn_requested);
    let cmds = s.begin_frame(quiet(20 * MS));
    assert!(!cmds.maximize);
    assert!(!cmds.spawn_whip);
}

#[test]
fn quit_requests_end_the_program() {
    for which in 0..4 {
        let mut s = Session::new(0);
        let mut input = quiet(0);
        match which {
            0 => input.close_requested = true,
            1 => input.escape_pressed = true,
            2 => input.quit_chosen = true,
            _ => input.middle_clicked = true,
        }
        assert!(s.begin_frame(input).quit);
    }
}

#[test]
fn quit_stops_before_spawning() {
    let mut s = Session::new(0);
    let mut input = quiet(0);
    input.escape_pressed = true;
    let cmds = s.begin_frame(input);
    assert!(cmds.quit && cmds.maximize && !cmds.spawn_whip);
    assert_eq!(s.whip, WhipState::Absent);
    assert!(!s.first_frame);
}

#[test]
fn click_drops_a_held_whip() {
    let mut s = Session::new(0);
    s.begin_frame(quiet(0));
    let mut input = quiet(MS);
    input.primary_clicked = true;
    let cmds = s.begin_frame(input);
    assert!(!cmds.spawn_whip);
    assert_eq!(s.whip, WhipState::Dropping);
}

#[test]
fn click_with_no_whip_spawns_nothing() {
    let mut s = Session::new(0);
    s.begin_frame(quiet(0));
    s.end_frame(MS, true);
    assert_eq!(s.whip, WhipState::Absent);
    let mut input = quiet(2 * MS);
    input.primary_clicked = true;
    assert!(!s.begin_frame(input).spawn_whip);
    assert_eq!(s.whip, WhipState::Absent);
}

#[test]
fn tray_click_drops_or_spawns() {
    let mut s = Session::new(0);
    s.begin_frame(quiet(0));
    let mut input = quiet(MS);
    input.tray_clicked = true;
    s.begin_frame(input);
    assert_eq!(s.whip, WhipState::Dropping);
    s.begin_frame(input);
    assert_eq!(s.whip, WhipState::Dropping);
    s.end_frame(2 * MS, true);
    let cmds = s.begin_frame(input);
    assert!(cmds.spawn_whip);
    assert_eq!(s.whip, WhipState::Held);
}

#[test]
fn tray_click_during_mercy_spawns_nothing() {
    let mut s = Session::new(0);
    s.whip = WhipState::Absent;
    s.spawn_requested = false;
    s.first_frame = false;
    s.mercy_active = true;
    s.mercy_start = Some(0);
    let mut input = quiet(SEC);
    input.tray_clicked = true;
    assert!(!s.begin_frame(input).spawn_whip);
    assert_eq!(s.whip, WhipState::Absent);
}

#[test]
fn respawn_replaces_whip_and_ends_mercy() {
    let mut s = Session::new(0);
    s.begin_frame(quiet(0));
    s.whip = WhipState::Dropping;
    s.mercy_active = true;
    s.mercy_start = Some(0);
    let mut input = quiet(SEC);
    input.respawn_chosen = true;
    let cmds = s.begin_frame(input);
    assert!(cmds.spawn_whip);
    assert_eq!(s.whip, WhipState::Held);
    assert!(!s.mercy_active);
}

#[test]
fn first_crack_starts_combo() {
    let mut s = Session::new(0);
    s.begin_frame(quiet(0));
    let a = s.register_crack(SEC, 50);
    assert_eq!(a, CrackAction { sound: Some(SoundCategory::WhipOnly), flash: true, phrase: Some(Phrase::Roast(7)) });
    assert_eq!(s.combo, 1);
    assert_eq!(s.daily_cracks, 1);
    assert_eq!(s.total_cracks, 1);
    assert_eq!(s.cracks_in_window, 1);
    assert_eq!(s.flash_start, Some(SEC));
    assert_eq!(s.combo_reset_at, SEC);
}

#[test]
fn quick_cracks_escalate_to_shouting() {
    let mut s = Session::new(0);
    let mut last = None;
    for k in 0..5u64 {
        last = Some(s.register_crack(5 * SEC + k * SEC, 3));
    }
    assert_eq!(s.combo, 5);
    assert_eq!(last.unwrap().phrase, Some(Phrase::Shouted(3)));
    let mut s2 = Session::new(0);
    for k in 0..4u64 {
        last = Some(s2.register_crack(5 * SEC + k * SEC, 3));
    }
    assert_eq!(s2.combo, 4);
    assert_eq!(last.unwrap().phrase, Some(Phrase::Roast(3)));
}

#[test]
fn pause_of_four_seconds_restarts_combo() {
    let mut s = Session::new(0);
    s.register_crack(10 * SEC, 0);
    s.register_crack(11 * SEC, 0);
    assert_eq!(s.combo, 2);
    s.register_crack(15 * SEC, 0);
    assert_eq!(s.combo, 1);
    s.register_crack(15 * SEC + 3_999 * MS, 0);
    assert_eq!(s.combo, 2);
}

#[test]
fn ten_cracks_in_thirty_seconds_unionize() {
    let mut s = Session::new(0);
    for k in 0..9u64 {
        let a = s.register_crack(k * 3 * SEC, 1);
        assert!(a.phrase.is_some());
        assert!(!s.mercy_active);
    }
    assert_eq!(s.cracks_in_window, 9);
    let a = s.register_crack(30 * SEC, 4);
    assert_eq!(a, CrackAction { sound: Some(SoundCategory::WhipOnly), flash: false, phrase: Some(Phrase::Plea(4)) });
    assert!(s.mercy_active);
    assert_eq!(s.mercy_start, Some(30 * SEC));
    assert_eq!(s.cracks_in_window, 0);
    assert_eq!(s.total_cracks, 10);
}

#[test]
fn cracks_during_mercy_are_silent() {
    let mut s = Session::new(0);
    for k in 0..10u64 {
        s.register_crack(k * SEC, 0);
    }
    assert!(s.mercy_active);
    let combo = s.combo;
    let a = s.register_crack(11 * SEC, 0);
    assert_eq!(a, CrackAction { sound: None, flash: false, phrase: None });
    assert_eq!(s.combo, combo);
    assert_eq!(s.total_cracks, 11);
    assert_eq!(s.cracks_in_window, 1);
}

#[test]
fn mercy_window_restarts_after_thirty_seconds() {
    let mut s = Session::new(0);
    for k in 0..9u64 {
        s.register_crack(k * SEC, 0);
    }
    s.register_crack(30 * SEC + 1, 0);
    assert!(!s.mercy_active);
    assert_eq!(s.cracks_in_window, 1);
    assert_eq!(s.window_start, 30 * SEC + 1);
}

#[test]
fn mercy_lasts_ten_seconds() {
    let mut s = Session::new(0);
    s.begin_frame(quiet(0));
    for k in 0..10u64 {
        s.register_crack(SEC + k * SEC, 0);
    }
    assert_eq!(s.mercy_start, Some(10 * SEC));
    s.begin_frame(quiet(19 * SEC + 999_999_999));
    assert!(s.mercy_active);
    s.begin_frame(quiet(20 * SEC));
    assert!(!s.mercy_active);
    assert_eq!(s.mercy_start, None);
}

#[test]
fn daily_counter_restarts_after_a_day() {
    let day = 86_400 * SEC;
    let mut s = Session::new(0);
    s.register_crack(SEC, 0);
    s.register_crack(day, 0);
    assert_eq!(s.daily_cracks, 2);
    s.register_crack(day + 1, 0);
    assert_eq!(s.daily_cracks, 1);
    assert_eq!(s.day_start, day + 1);
    assert_eq!(s.total_cracks, 3);
}

#[test]
fn end_frame_reports_idle_and_hint() {
    let mut s = Session::new(0);
    s.begin_frame(quiet(0));
    let v = s.end_frame(MS, false);
    assert!(!v.passthrough);
    assert_eq!(v.hint, Hint::Hidden);
    assert_eq!(v.daily_count, None);
    let v = s.end_frame(2 * MS, true);
    assert!(v.passthrough);
    assert_eq!(v.hint, Hint::Plain);
    s.register_crack(SEC, 0);
    let v = s.end_frame(2 * SEC, false);
    assert_eq!(v.hint, Hint::Count(1));
}

#[test]
fn flash_shows_for_three_tenths_of_a_second() {
    let mut s = Session::new(0);
    s.begin_frame(quiet(0));
    s.register_crack(SEC, 0);
    let v = s.end_frame(SEC + 299 * MS, false);
    assert_eq!(v.flash_age, Some(299 * MS));
    assert_eq!(v.daily_count, Some(1));
    let v = s.end_frame(SEC + 300 * MS, false);
    assert_eq!(v.flash_age, None);
    assert_eq!(s.flash_start, None);
}

#[test]
fn rage_and_badge_follow_combo() {
    let mut s = Session::new(0);
    s.begin_frame(quiet(0));
    let v = s.end_frame(0, false);
    assert_eq!((v.rage, v.badge), (0, None));
    s.register_crack(SEC, 0);
    let v = s.end_frame(SEC, false);
    assert_eq!((v.rage, v.badge), (0, None));
    s.register_crack(2 * SEC, 0);
    let v = s.end_frame(2 * SEC, false);
    assert_eq!((v.rage, v.badge), (1, Some(Badge::Warm)));
    for k in 3..8u64 {
        s.register_crack(k * SEC, 0);
    }
    let v = s.end_frame(7 * SEC, false);
    assert_eq!(s.combo, 7);
    assert_eq!((v.rage, v.badge), (4, Some(Badge::Hot)));
    let v = s.end_frame(8 * SEC, true);
    assert_eq!(v.badge, None);
}

#[test]
fn mercy_age_shows_while_mercy_lasts() {
    let mut s = Session::new(0);
    s.begin_frame(quiet(0));
    for k in 0..10u64 {
        s.register_crack(k * SEC, 0);
    }
    let v = s.end_frame(12 * SEC, false);
    assert_eq!(v.mercy_age, Some(3 * SEC));
    assert!(!v.passthrough);
}

#[test]
fn on_crack_types_a_roast_and_plays_a_sound() {
    static SOUND: &[u8] = b"snap";
    static YOWL: &[u8] = b"yowl";
    let (atx, arx) = mpsc::channel();
    let (ktx, krx) = mpsc::channel();
    let mut audio = AudioPlayer::with_sounds(atx, vec![SOUND], vec![YOWL]);
    let mut typist = MacroQueue::with_sender(ktx);
    let mut s = Session::new(0);
    let a = s.on_crack(SEC, &mut audio, &mut typist);
    assert_eq!(arx.try_recv().unwrap(), SOUND);
    let typed = krx.try_recv().unwrap();
    assert!(roast_list().iter().any(|r| *r == typed));
    match a.phrase {
        Some(p) => assert_eq!(p.text(), typed),
        None => panic!("a roast is typed"),
    }
    for k in 1..9u64 {
        s.on_crack(SEC + k * SEC, &mut audio, &mut typist);
    }
    while krx.try_recv().is_ok() {}
    let a = s.on_crack(10 * SEC, &mut audio, &mut typist);
    assert!(s.mercy_active);
    let typed = krx.try_recv().unwrap();
    assert!(plea_list().iter().any(|p| *p == typed));
    assert!(matches!(a.phrase, Some(Phrase::Plea(_))));
}

#[test]
fn on_crack_during_mercy_plays_and_types_nothing() {
    static SOUND: &[u8] = b"snap";
    static YOWL: &[u8] = b"yowl";
    let (atx, arx) = mpsc::channel();
    let (ktx, krx) = mpsc::channel();
    let mut audio = AudioPlayer::with_sounds(atx, vec![SOUND], vec![YOWL]);
    let mut typist = MacroQueue::with_sender(ktx);
    let mut s = Session::new(0);
    for k in 0..10u64 {
        s.on_crack(k * SEC, &mut audio, &mut typist);
    }
    assert!(s.mercy_active);
    while arx.try_recv().is_ok() {}
    while krx.try_recv().is_ok() {}
    let a = s.on_crack(11 * SEC, &mut audio, &mut typist);
    assert_eq!(a, CrackAction { sound: None, flash: false, phrase: None });
    assert!(arx.try_recv().is_err());
    assert!(krx.try_recv().is_err());
}

#[test]
fn high_combo_plays_escalated_sound() {
    static SNAP: &[u8] = b"snap";
    static SCREAM: &[u8] = b"scream";
    let (atx, arx) = mpsc::channel();
    let (ktx, _krx) = mpsc::channel();
    let mut audio = AudioPlayer::with_sounds(atx, vec![SNAP], vec![SCREAM]);
    let mut typist = MacroQueue::with_sender(ktx);
    let mut s = Session::new(0);
    for k in 0..4u64 {
        let a = s.on_crack(SEC + k * SEC, &mut audio, &mut typist);
        assert_eq!(a.sound, Some(SoundCategory::WhipOnly));
        assert_eq!(arx.try_recv().unwrap(), SNAP);
    }
    let a = s.on_crack(5 * SEC, &mut audio, &mut typist);
    assert_eq!(s.combo, 5);
    assert_eq!(a.sound, Some(SoundCategory::Escalated));
    assert_eq!(arx.try_recv().unwrap(), SCREAM);
    s.register_crack(20 * SEC, 0);
    assert_eq!(s.combo, 1);
}
