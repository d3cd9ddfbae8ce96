use vstd::prelude::*;
use crate::timing::{elapsed, elapsed_ns, NANOS_PER_SEC};
use crate::phrases::{Phrase, ROAST_COUNT, PLEA_COUNT, pick, pick_index};
use crate::audio::{AudioPlayer, SoundCategory};
use crate::keyboard::MacroQueue;
use crate::chance::random_u32;

verus! {

/// Cracks within this many nanoseconds of the previous combo crack extend the combo.
pub const COMBO_WINDOW_NS: u64 = 4 * NANOS_PER_SEC;

/// The combo at which roasts are shouted.
pub const SHOUT_COMBO: u32 = 5;

/// Cracks counted in one mercy window that start mercy mode.
pub const MERCY_THRESHOLD: u32 = 10;

/// Length of a mercy counting window, in nanoseconds.
pub const MERCY_WINDOW_NS: u64 = 30 * NANOS_PER_SEC;

/// How long mercy mode lasts, in nanoseconds.
pub const MERCY_DURATION_NS: u64 = 10 * NANOS_PER_SEC;

/// Length of a day of the daily counter, in nanoseconds.
pub const DAY_NS: u64 = 86_400 * NANOS_PER_SEC;

/// How long the flash at the whip's tip shows, in nanoseconds.
pub const FLASH_NS: u64 = 300_000_000;

/// Where the whip is in its life.
#[derive(Clone, Copy, Debug, PartialEq, Eq, Structural)]
pub enum WhipState {
    /// No whip on screen.
    Absent,
    /// The whip follows the mouse.
    Held,
    /// The whip has been let go and falls.
    Dropping,
}

/// The overlay's bookkeeping between frames.
#[derive(Clone, Copy, Debug, PartialEq, Eq, Structural)]
pub struct Session {
    /// The whip on screen.
    pub whip: WhipState,
    /// Cracks in the current combo.
    pub combo: u32,
    /// When the last combo crack came.
    pub combo_reset_at: u64,
    /// When the tip flash started, while it may still show.
    pub flash_start: Option<u64>,
    /// Mercy mode is on.
    pub mercy_active: bool,
    /// When mercy mode started.
    pub mercy_start: Option<u64>,
    /// Cracks counted in the current mercy window.
    pub cracks_in_window: u32,
    /// When the current mercy window started.
    pub window_start: u64,
    /// Cracks since the daily counter started.
    pub daily_cracks: u32,
    /// When the daily counter started.
    pub day_start: u64,
    /// Cracks since the session started.
    pub total_cracks: u32,
    /// A whip should appear in the next frame.
    pub spawn_requested: bool,
    /// No frame has run yet.
    pub first_frame: bool,
}

/// What a crack makes the overlay do.
#[derive(Clone, Copy, Debug, PartialEq, Eq, Structural)]
pub struct CrackAction {
    /// The bank a sound plays from, if one plays.
    pub sound: Option<SoundCategory>,
    /// A flash shows at the whip's tip.
    pub flash: bool,
    /// The phrase typed into the focused window, if any.
    pub phrase: Option<Phrase>,
}

/// What the window reported at the start of a frame.
#[derive(Clone, Copy, Debug, PartialEq, Eq, Structural)]
pub struct FrameInput {
    /// The frame's time.
    pub now: u64,
    /// The window system asked the window to close.
    pub close_requested: bool,
    /// Escape was pressed.
    pub escape_pressed: bool,
    /// "Quit" was chosen in the tray menu.
    pub quit_chosen: bool,
    /// "Respawn Whip" was chosen in the tray menu.
    pub respawn_chosen: bool,
    /// The tray icon was left-clicked.
    pub tray_clicked: bool,
    /// The middle mouse button was clicked.
    pub middle_clicked: bool,
    /// The primary mouse button was clicked.
    pub primary_clicked: bool,
}

/// What the window must do at the start of a frame.
#[derive(Clone, Copy, Debug, PartialEq, Eq, Structural)]
pub struct FrameCommands {
    /// End the program.
    pub quit: bool,
    /// Maximize the window (the first frame only).
    pub maximize: bool,
    /// Put a new whip at the mouse, replacing any whip there was.
    pub spawn_whip: bool,
}

/// The idle hint at the bottom of the screen.
#[derive(Clone, Copy, Debug, PartialEq, Eq, Structural)]
pub enum Hint {
    /// No hint.
    Hidden,
    /// The hint without a count: nothing cracked today.
    Plain,
    /// The hint with today's crack count.
    Count(u32),
}

/// The colour of the combo badge.
#[derive(Clone, Copy, Debug, PartialEq, Eq, Structural)]
pub enum Badge {
    /// Yellow, for combos of two to four.
    Warm,
    /// Orange, from a combo of five.
    Hot,
}

/// What the window shows once the frame's whip physics has run.
#[derive(Clone, Copy, Debug, PartialEq, Eq, Structural)]
pub struct FrameView {
    /// Clicks pass through the overlay to the windows below.
    pub passthrough: bool,
    /// How red the whip is, in quarters: 0 (dark) to 4 (full red).
    pub rage: u32,
    /// The combo badge over the tip, if one shows.
    pub badge: Option<Badge>,
    /// The idle hint.
    pub hint: Hint,
    /// Nanoseconds since the tip flash started, while it shows.
    pub flash_age: Option<u64>,
    /// Nanoseconds since mercy mode started, while it lasts.
    pub mercy_age: Option<u64>,
    /// Today's crack count in the corner, if it shows.
    pub daily_count: Option<u32>,
}

impl Session {
    /// The counters never pass the total, and the flags agree with each other.
    pub open spec fn wf(self) -> bool {
        &&& self.combo <= self.total_cracks
        &&& self.daily_cracks <= self.total_cracks
        &&& self.cracks_in_window <= self.total_cracks
        &&& self.mercy_active ==> self.mercy_start is Some
        &&& self.spawn_requested ==> self.whip == WhipState::Absent
    }

    /// The state of a session that starts at `now`: no whip yet, one asked for.
    pub open spec fn started_at(now: u64) -> Session {
        Session {
            whip: WhipState::Absent,
            combo: 0,
            combo_reset_at: now,
            flash_start: None,
            mercy_active: false,
            mercy_start: None,
            cracks_in_window: 0,
            window_start: now,
            daily_cracks: 0,
            day_start: now,
            total_cracks: 0,
            spawn_requested: true,
            first_frame: true,
        }
    }

    /// More than a day has passed since the daily counter started.
    pub open spec fn day_over(self, now: u64) -> bool {
        elapsed(now, self.day_start) > DAY_NS
    }

    /// More than the mercy window has passed since the window started.
    pub open spec fn window_over(self, now: u64) -> bool {
        elapsed(now, self.window_start) > MERCY_WINDOW_NS
    }

    /// The cracks counted in the mercy window once a crack at `now` is counted.
    pub open spec fn window_count(self, now: u64) -> int {
        if self.window_over(now) {
            1
        } else {
            self.cracks_in_window + 1
        }
    }

    /// A crack at `now` starts mercy mode.
    pub open spec fn starts_mercy(self, now: u64) -> bool {
        !self.mercy_active && self.window_count(now) >= MERCY_THRESHOLD
    }

    /// The combo after a crack at `now` that counts toward it.
    pub open spec fn next_combo(self, now: u64) -> int {
        if elapsed(now, self.combo_reset_at) < COMBO_WINDOW_NS {
            self.combo + 1
        } else {
            1
        }
    }

    /// The session after a crack at `now`.
    pub open spec fn after_crack(self, now: u64) -> Session {
        let counted = Session {
            daily_cracks: (if self.day_over(now) { 1 } else { self.daily_cracks + 1 }) as u32,
            day_start: if self.day_over(now) { now } else { self.day_start },
            total_cracks: (self.total_cracks + 1) as u32,
            window_start: if self.window_over(now) { now } else { self.window_start },
            cracks_in_window: self.window_count(now) as u32,
            ..self
        };
        if self.starts_mercy(now) {
            Session { mercy_active: true, mercy_start: Some(now), cracks_in_window: 0, ..counted }
        } else if self.mercy_active {
            counted
        } else {
            Session {
                combo: self.next_combo(now) as u32,
                combo_reset_at: now,
                flash_start: Some(now),
                ..counted
            }
        }
    }

    /// What a crack at `now` does, given the random `roll` that picks its phrase.
    pub open spec fn crack_action(self, now: u64, roll: u32) -> CrackAction {
        if self.starts_mercy(now) {
            CrackAction {
                sound: Some(SoundCategory::WhipOnly),
                flash: false,
                phrase: Some(Phrase::Plea(pick(roll, PLEA_COUNT) as usize)),
            }
        } else if self.mercy_active {
            CrackAction { sound: None, flash: false, phrase: None }
        } else {
            let i = pick(roll, ROAST_COUNT) as usize;
            let high = self.next_combo(now) >= SHOUT_COMBO;
            CrackAction {
                sound: Some(if high { SoundCategory::Escalated } else { SoundCategory::WhipOnly }),
                flash: true,
                phrase: Some(
                    if self.next_combo(now) >= SHOUT_COMBO {
                        Phrase::Shouted(i)
                    } else {
                        Phrase::Roast(i)
                    },
                ),
            }
        }
    }

    /// The session and commands after the start of a frame: the first frame
    /// maximizes; closing, Escape, "Quit" and a middle click end the program;
    /// "Respawn Whip" clears the whip and mercy mode and asks for a whip; a
    /// tray click drops a held whip or, with no whip and no mercy, asks for
    /// one; mercy mode ends ten seconds after it started; a requested whip
    /// appears; a click drops a held whip.
    pub open spec fn frame_start(self, input: FrameInput) -> (Session, FrameCommands) {
        let maximize = self.first_frame;
        let s1 = Session { first_frame: false, ..self };
        if input.close_requested || input.escape_pressed || input.quit_chosen {
            (s1, FrameCommands { quit: true, maximize, spawn_whip: false })
        } else {
            let s2 = if input.respawn_chosen {
                Session { whip: WhipState::Absent, mercy_active: false, spawn_requested: true, ..s1 }
            } else {
                s1
            };
            let s3 = if !input.tray_clicked {
                s2
            } else if s2.whip == WhipState::Held {
                Session { whip: WhipState::Dropping, ..s2 }
            } else if s2.whip == WhipState::Absent && !s2.mercy_active {
                Session { spawn_requested: true, ..s2 }
            } else {
                s2
            };
            if input.middle_clicked {
                (s3, FrameCommands { quit: true, maximize, spawn_whip: false })
            } else {
                let s4 = match s3.mercy_start {
                    Some(start) if s3.mercy_active && elapsed(input.now, start) >= MERCY_DURATION_NS =>
                        Session { mercy_active: false, mercy_start: None, ..s3 },
                    _ => s3,
                };
                let s5 = if s4.spawn_requested {
                    Session { whip: WhipState::Held, spawn_requested: false, ..s4 }
                } else {
                    s4
                };
                let s6 = if input.primary_clicked && s5.whip == WhipState::Held {
                    Session { whip: WhipState::Dropping, ..s5 }
                } else {
                    s5
                };
                (s6, FrameCommands { quit: false, maximize, spawn_whip: s4.spawn_requested })
            }
        }
    }

    /// The whip's redness for a combo, in quarters.
    pub open spec fn rage_of(combo: u32) -> u32 {
        if combo <= 1 {
            0
        } else if combo - 1 >= 4 {
            4
        } else {
            (combo - 1) as u32
        }
    }

    /// The session after the end of a frame at `now`: a whip that fell off
    /// the screen is gone, and an expired flash is cleared.
    pub open spec fn frame_end(self, now: u64, whip_gone: bool) -> Session {
        let s1 = if whip_gone { Session { whip: WhipState::Absent, ..self } } else { self };
        match s1.flash_start {
            Some(start) if elapsed(now, start) >= FLASH_NS => Session { flash_start: None, ..s1 },
            _ => s1,
        }
    }

    /// What the window shows after the end of a frame at `now`.
    pub open spec fn frame_view(self, now: u64, whip_gone: bool) -> FrameView {
        let s = self.frame_end(now, whip_gone);
        let idle = s.whip == WhipState::Absent && !s.mercy_active;
        let has_whip = s.whip != WhipState::Absent;
        FrameView {
            passthrough: idle,
            rage: Session::rage_of(s.combo),
            badge: if has_whip && s.combo >= 2 {
                Some(if s.combo >= SHOUT_COMBO { Badge::Hot } else { Badge::Warm })
            } else {
                None
            },
            hint: if !idle {
                Hint::Hidden
            } else if s.daily_cracks > 0 {
                Hint::Count(s.daily_cracks)
            } else {
                Hint::Plain
            },
            flash_age: match s.flash_start {
                Some(start) => Some(elapsed(now, start) as u64),
                None => None,
            },
            mercy_age: match s.mercy_start {
                Some(start) if s.mercy_active => Some(elapsed(now, start) as u64),
                _ => None,
            },
            daily_count: if s.daily_cracks > 0 && has_whip { Some(s.daily_cracks) } else { None },
        }
    }

    /// A session that starts at `now`.
    pub fn new(now: u64) -> (s: Session)
        ensures
            s == Session::started_at(now),
            s.wf(),
    {
        Session {
            whip: WhipState::Absent,
            combo: 0,
            combo_reset_at: now,
            flash_start: None,
            mercy_active: false,
            mercy_start: None,
            cracks_in_window: 0,
            window_start: now,
            daily_cracks: 0,
            day_start: now,
            total_cracks: 0,
            spawn_requested: true,
            first_frame: true,
        }
    }

    /// Counts a crack at `now` and decides what it does, with `roll` picking
    /// the phrase: the daily counter restarts after a day; the crack counts in
    /// the mercy window (which restarts after 30 s); the tenth crack of a
    /// window starts mercy mode with a plea; during mercy nothing else
    /// happens; otherwise the combo grows (or restarts after a 4 s pause), the
    /// tip flashes and a roast is typed, shouted from a combo of five.
    pub fn register_crack(&mut self, now: u64, roll: u32) -> (action: CrackAction)
        requires
            old(self).wf(),
            old(self).total_cracks < u32::MAX,
        ensures
            *final(self) == old(self).after_crack(now),
            action == old(self).crack_action(now, roll),
            final(self).wf(),
            action.phrase matches Some(p) ==> p.valid(),
    {
        if elapsed_ns(now, self.day_start) > DAY_NS {
            self.daily_cracks = 0;
            self.day_start = now;
        }
        self.daily_cracks = self.daily_cracks + 1;
        self.total_cracks = self.total_cracks + 1;

        if elapsed_ns(now, self.window_start) > MERCY_WINDOW_NS {
            self.cracks_in_window = 0;
            self.window_start = now;
        }
        self.cracks_in_window = self.cracks_in_window + 1;

        if self.cracks_in_window >= MERCY_THRESHOLD && !self.mercy_active {
            self.mercy_active = true;
            self.mercy_start = Some(now);
            self.cracks_in_window = 0;
            let i = pick_index(roll, PLEA_COUNT);
            return CrackAction {
                sound: Some(SoundCategory::WhipOnly),
                flash: false,
                phrase: Some(Phrase::Plea(i)),
            };
        }

        if self.mercy_active {
            return CrackAction { sound: None, flash: false, phrase: None };
        }

        if elapsed_ns(now, self.combo_reset_at) < COMBO_WINDOW_NS {
            self.combo = self.combo + 1;
        } else {
            self.combo = 1;
        }
        self.combo_reset_at = now;
        self.flash_start = Some(now);

        let i = pick_index(roll, ROAST_COUNT);
        let high = self.combo >= SHOUT_COMBO;
        let phrase = if high { Phrase::Shouted(i) } else { Phrase::Roast(i) };
        let sound = if high { SoundCategory::Escalated } else { SoundCategory::WhipOnly };
        CrackAction { sound: Some(sound), flash: true, phrase: Some(phrase) }
    }

    /// Handles a crack at `now`: counts it and, as [`Session::register_crack`]
    /// decides with a random roll, plays one sample of the chosen bank (the
    /// escalated one from a combo of five) and queues the phrase's text for
    /// typing.
    pub fn on_crack(&mut self, now: u64, audio: &mut AudioPlayer, typist: &mut MacroQueue) -> (action: CrackAction)
        requires
            old(self).wf(),
            old(self).total_cracks < u32::MAX,
        ensures
            *final(self) == old(self).after_crack(now),
            exists|roll: u32| action == old(self).crack_action(now, roll),
            final(self).wf(),
            match action.phrase {
                Some(p) => final(typist).queued() == old(typist).queued().push(p.spec_text()),
                None => final(typist).queued() == old(typist).queued(),
            },
            final(audio).whip_sounds() == old(audio).whip_sounds(),
            final(audio).escalated_sounds() == old(audio).escalated_sounds(),
            match action.sound {
                Some(c) => if old(audio).bank(c).len() > 0 {
                    exists|s: &'static [u8]|
                        old(audio).bank(c).contains(s) && final(audio).played() == old(
                            audio,
                        ).played().push(s@)
                } else {
                    final(audio).played() == old(audio).played()
                },
                None => final(audio).played() == old(audio).played(),
            },
    {
        let roll = random_u32();
        let action = self.register_crack(now, roll);
        if let Some(category) = action.sound {
            audio.play_from(category);
        }
        if let Some(p) = action.phrase {
            typist.send(p.text());
        }
        action
    }
    /// Starts a frame: handles the window's and the tray's requests, ends
    /// mercy mode when its time is up, and places or drops the whip, as
    /// [`Session::frame_start`] states.
    pub fn begin_frame(&mut self, input: FrameInput) -> (cmds: FrameCommands)
        requires
            old(self).wf(),
        ensures
            (*final(self), cmds) == old(self).frame_start(input),
            final(self).wf(),
    {
        let maximize = self.first_frame;
        self.first_frame = false;
        if input.close_requested || input.escape_pressed || input.quit_chosen {
            return FrameCommands { quit: true, maximize, spawn_whip: false };
        }
        if input.respawn_chosen {
            self.whip = WhipState::Absent;
            self.mercy_active = false;
            self.spawn_requested = true;
        }
        if input.tray_clicked {
            match self.whip {
                WhipState::Held => {
                    self.whip = WhipState::Dropping;
                },
                WhipState::Dropping => {},
                WhipState::Absent => {
                    if !self.mercy_active {
                        self.spawn_requested = true;
                    }
                },
            }
        }
        if input.middle_clicked {
            return FrameCommands { quit: true, maximize, spawn_whip: false };
        }
        if self.mercy_active {
            if let Some(start) = self.mercy_start {
                if elapsed_ns(input.now, start) >= MERCY_DURATION_NS {
                    self.mercy_active = false;
                    self.mercy_start = None;
                }
            }
        }
        let spawn_whip = self.spawn_requested;
        if self.spawn_requested {
            self.whip = WhipState::Held;
            self.spawn_requested = false;
        }
        if input.primary_clicked {
            if let WhipState::Held = self.whip {
                self.whip = WhipState::Dropping;
            }
        }
        FrameCommands { quit: false, maximize, spawn_whip }
    }

    /// Ends a frame at `now` after the whip physics ran (and any crack was
    /// handled): forgets a whip that fell off the screen, clears an expired
    /// flash, and says what to show, as [`Session::frame_view`] states.
    pub fn end_frame(&mut self, now: u64, whip_gone: bool) -> (view: FrameView)
        requires
            old(self).wf(),
        ensures
            *final(self) == old(self).frame_end(now, whip_gone),
            view == old(self).frame_view(now, whip_gone),
            final(self).wf(),
    {
        if whip_gone {
            self.whip = WhipState::Absent;
        }
        let mut flash_age: Option<u64> = None;
        if let Some(start) = self.flash_start {
            let age = elapsed_ns(now, start);
            if age < FLASH_NS {
                flash_age = Some(age);
            } else {
                self.flash_start = None;
            }
        }
        let idle = match self.whip {
            WhipState::Absent => !self.mercy_active,
            _ => false,
        };
        let has_whip = match self.whip {
            WhipState::Absent => false,
            _ => true,
        };
        let rage: u32 = if self.combo <= 1 {
            0
        } else if self.combo - 1 >= 4 {
            4
        } else {
            self.combo - 1
        };
        let badge = if has_whip && self.combo >= 2 {
            Some(if self.combo >= SHOUT_COMBO { Badge::Hot } else { Badge::Warm })
        } else {
            None
        };
        let hint = if !idle {
            Hint::Hidden
        } else if self.daily_cracks > 0 {
            Hint::Count(self.daily_cracks)
        } else {
            Hint::Plain
        };
        let mercy_age = match self.mercy_start {
            Some(start) => if self.mercy_active { Some(elapsed_ns(now, start)) } else { None },
            None => None,
        };
        let daily_count = if self.daily_cracks > 0 && has_whip { Some(self.daily_cracks) } else { None };
        FrameView { passthrough: idle, rage, badge, hint, flash_age, mercy_age, daily_count }
    }
}

impl Session {
    /// The session after cracks at each of `times`, in order.
    pub open spec fn after_cracks(self, times: Seq<u64>) -> Session
        decreases times.len(),
    {
        if times.len() == 0 {
            self
        } else {
            self.after_crack(times[0]).after_cracks(times.drop_first())
        }
    }

    /// Every time of `times` lies in the current mercy window.
    pub open spec fn all_in_window(self, times: Seq<u64>) -> bool {
        forall|i: int|
            0 <= i < times.len() ==> self.window_start <= #[trigger] times[i] && times[i]
                - self.window_start <= MERCY_WINDOW_NS
    }
}

/// The first crack of a run inside the mercy window leaves the window where
/// it was, so the rest of the run lies in it too.
proof fn lemma_rest_in_window(s: Session, times: Seq<u64>)
    requires
        times.len() > 0,
        s.all_in_window(times),
    ensures
        s.after_crack(times[0]).window_start == s.window_start,
        s.after_crack(times[0]).all_in_window(times.drop_first()),
{
    assert(!s.window_over(times[0]));
    let rest = times.drop_first();
    assert forall|i: int| 0 <= i < rest.len() implies s.window_start <= #[trigger] rest[i]
        && rest[i] - s.window_start <= MERCY_WINDOW_NS by {
        assert(rest[i] == times[i + 1]);
    }
}

/// Once mercy mode is on, further cracks do not end it.
pub proof fn lemma_mercy_persists(s: Session, times: Seq<u64>)
    requires
        s.mercy_active,
    ensures
        s.after_cracks(times).mercy_active,
    decreases times.len(),
{
    if times.len() > 0 {
        lemma_mercy_persists(s.after_crack(times[0]), times.drop_first());
    }
}

/// Mercy mode: enough cracks within one 30-second window start it. From a state without mercy mode, once the cracks counted in the
/// current window reach ten, mercy mode is on.
pub proof fn lemma_mercy_after_threshold(s: Session, times: Seq<u64>)
    requires
        !s.mercy_active,
        times.len() >= 1,
        s.all_in_window(times),
        s.cracks_in_window + times.len() >= MERCY_THRESHOLD,
    ensures
        s.after_cracks(times).mercy_active,
    decreases times.len(),
{
    let t = times[0];
    let next = s.after_crack(t);
    let rest = times.drop_first();
    assert(!s.window_over(t));
    if s.starts_mercy(t) {
        lemma_mercy_persists(next, rest);
    } else {
        assert(next.window_start == s.window_start);
        assert(next.cracks_in_window == s.cracks_in_window + 1);
        lemma_rest_in_window(s, times);
        lemma_mercy_after_threshold(next, rest);
    }
}

/// Fewer cracks do not: from a state without mercy mode, cracks in the
/// current window that keep its count under ten leave mercy mode off, and
/// each of them is counted.
pub proof fn lemma_no_mercy_below_threshold(s: Session, times: Seq<u64>)
    requires
        !s.mercy_active,
        s.all_in_window(times),
        s.cracks_in_window + times.len() < MERCY_THRESHOLD,
    ensures
        !s.after_cracks(times).mercy_active,
        s.after_cracks(times).cracks_in_window == s.cracks_in_window + times.len(),
        s.after_cracks(times).window_start == s.window_start,
    decreases times.len(),
{
    if times.len() > 0 {
        let t = times[0];
        let next = s.after_crack(t);
        let rest = times.drop_first();
        assert(!s.window_over(t));
        lemma_rest_in_window(s, times);
        lemma_no_mercy_below_threshold(next, rest);
    }
}

/// Every crack counts once toward the total.
pub proof fn lemma_total_counts_every_crack(s: Session, times: Seq<u64>)
    requires
        s.total_cracks + times.len() <= u32::MAX,
    ensures
        s.after_cracks(times).total_cracks == s.total_cracks + times.len(),
    decreases times.len(),
{
    if times.len() > 0 {
        lemma_total_counts_every_crack(s.after_crack(times[0]), times.drop_first());
    }
}

/// Each time of `times` comes less than four seconds after the one before,
/// and the first less than four seconds after `start`.
pub open spec fn quick_succession(start: u64, times: Seq<u64>) -> bool {
    forall|j: int|
        0 <= j < times.len() ==> elapsed(
            #[trigger] times[j],
            if j == 0 { start } else { times[j - 1] },
        ) < COMBO_WINDOW_NS
}

/// Consecutive cracks escalate: cracks in quick succession (each within four
/// seconds of the one before) that neither meet nor start mercy mode raise
/// the combo by one each.
pub proof fn lemma_quick_cracks_build_combo(s: Session, times: Seq<u64>)
    requires
        !s.mercy_active,
        s.all_in_window(times),
        s.cracks_in_window + times.len() < MERCY_THRESHOLD,
        quick_succession(s.combo_reset_at, times),
        s.combo + times.len() <= u32::MAX,
    ensures
        s.after_cracks(times).combo == s.combo + times.len(),
    decreases times.len(),
{
    if times.len() > 0 {
        let t = times[0];
        let next = s.after_crack(t);
        let rest = times.drop_first();
        assert(!s.window_over(t));
        assert(elapsed(times[0], s.combo_reset_at) < COMBO_WINDOW_NS);
        assert(next.combo == s.combo + 1);
        assert(next.combo_reset_at == t);
        lemma_rest_in_window(s, times);
        assert forall|j: int| 0 <= j < rest.len() implies elapsed(
            #[trigger] rest[j],
            if j == 0 { next.combo_reset_at } else { rest[j - 1] },
        ) < COMBO_WINDOW_NS by {
            assert(rest[j] == times[j + 1]);
            assert(elapsed(times[j + 1], times[j]) < COMBO_WINDOW_NS);
        }
        lemma_quick_cracks_build_combo(next, rest);
    }
}

/// During mercy mode a crack plays nothing, types nothing, flashes nothing
/// and leaves the combo alone; it still counts toward the totals.
pub proof fn lemma_mercy_silences_cracks(s: Session, now: u64, roll: u32)
    requires
        s.mercy_active,
    ensures
        s.crack_action(now, roll) == (CrackAction { sound: None, flash: false, phrase: None }),
        s.after_crack(now).combo == s.combo,
        s.after_crack(now).combo_reset_at == s.combo_reset_at,
        s.after_crack(now).flash_start == s.flash_start,
        s.after_crack(now).mercy_active,
{
}

/// Mercy mode lasts ten seconds: in a frame that neither quits nor respawns,
/// it stays on exactly while less than ten seconds have passed since it
/// started.
pub proof fn lemma_mercy_lasts_ten_seconds(s: Session, input: FrameInput, start: u64)
    requires
        s.mercy_active,
        s.mercy_start == Some(start),
        !input.close_requested,
        !input.escape_pressed,
        !input.quit_chosen,
        !input.middle_clicked,
        !input.respawn_chosen,
    ensures
        s.frame_start(input).0.mercy_active <==> elapsed(input.now, start) < MERCY_DURATION_NS,
{
}

/// Combos: a crack outside mercy mode that does not start it raises the
/// combo by one when it comes within four seconds of the previous combo
/// crack and restarts it at one otherwise; its roast is shouted, and its
/// sound drawn from the escalated bank, exactly when the new combo is five
/// or more (a plain whip sound otherwise).
pub proof fn lemma_combo_escalates(s: Session, now: u64, roll: u32)
    requires
        !s.mercy_active,
        !s.starts_mercy(now),
        s.combo < u32::MAX,
    ensures
        s.after_crack(now).combo == (if elapsed(now, s.combo_reset_at) < COMBO_WINDOW_NS {
            s.combo + 1
        } else {
            1
        }),
        s.crack_action(now, roll).phrase matches Some(p) && (p is Shouted <==> s.after_crack(
            now,
        ).combo >= SHOUT_COMBO),
        s.crack_action(now, roll).sound == Some(
            if s.after_crack(now).combo >= SHOUT_COMBO {
                SoundCategory::Escalated
            } else {
                SoundCategory::WhipOnly
            },
        ),
{
}

/// The daily counter: a crack more than a day after the counter started
/// begins a new day at one; otherwise it adds one.
pub proof fn lemma_daily_counter(s: Session, now: u64)
    requires
        s.daily_cracks < u32::MAX,
    ensures
        s.after_crack(now).daily_cracks == (if s.day_over(now) { 1 } else { s.daily_cracks + 1 }),
{
}

/// A dropping whip keeps falling: only "Respawn Whip" replaces it, and no
/// frame makes it follow the mouse again.
pub proof fn lemma_dropping_whip_stays_dropping(s: Session, input: FrameInput)
    requires
        s.wf(),
        s.whip == WhipState::Dropping,
        !input.respawn_chosen,
    ensures
        s.frame_start(input).0.whip == WhipState::Dropping,
        !s.frame_start(input).1.spawn_whip,
{
}

/// Clicking on the overlay never brings a whip: without "Respawn Whip", a
/// tray click or a pending request, no whip appears.
pub proof fn lemma_click_never_spawns(s: Session, input: FrameInput)
    requires
        s.wf(),
        !s.spawn_requested,
        !input.respawn_chosen,
        !input.tray_clicked,
    ensures
        !s.frame_start(input).1.spawn_whip,
        s.frame_start(input).0.whip != WhipState::Held || s.whip == WhipState::Held,
{
}

/// The overlay lets clicks through exactly when there is no whip and no
/// mercy mode, and then shows the idle hint.
pub proof fn lemma_passthrough_when_idle(s: Session, now: u64, whip_gone: bool)
    ensures
        s.frame_view(now, whip_gone).passthrough <==> (s.frame_end(now, whip_gone).whip
            == WhipState::Absent && !s.frame_end(now, whip_gone).mercy_active),
        s.frame_view(now, whip_gone).passthrough <==> s.frame_view(now, whip_gone).hint
            != Hint::Hidden,
{
}

/// "Respawn Whip" always brings a new whip: in a frame that does not quit,
/// choosing it spawns a whip at the mouse and ends mercy mode, whatever the
/// whip and mercy mode were before; the whip follows the mouse unless the
/// same frame's click drops it at once.
pub proof fn lemma_respawn_brings_whip(s: Session, input: FrameInput)
    requires
        input.respawn_chosen,
        !input.close_requested,
        !input.escape_pressed,
        !input.quit_chosen,
        !input.middle_clicked,
    ensures
        s.frame_start(input).1.spawn_whip,
        !s.frame_start(input).1.quit,
        !s.frame_start(input).0.mercy_active,
        !s.frame_start(input).0.spawn_requested,
        s.frame_start(input).0.whip == (if input.primary_clicked {
            WhipState::Dropping
        } else {
            WhipState::Held
        }),
{
}

/// Ending a frame keeps every count: the daily, total, window and combo
/// counts, mercy mode and the day, window and combo clocks are as they were;
/// only a whip that fell off becomes absent and an expired flash is cleared.
/// So an idle frame shows today's count in its hint whenever there is one.
pub proof fn lemma_frame_end_keeps_counts(s: Session, now: u64, whip_gone: bool)
    ensures
        s.frame_end(now, whip_gone).daily_cracks == s.daily_cracks,
        s.frame_end(now, whip_gone).total_cracks == s.total_cracks,
        s.frame_end(now, whip_gone).cracks_in_window == s.cracks_in_window,
        s.frame_end(now, whip_gone).combo == s.combo,
        s.frame_end(now, whip_gone).combo_reset_at == s.combo_reset_at,
        s.frame_end(now, whip_gone).day_start == s.day_start,
        s.frame_end(now, whip_gone).window_start == s.window_start,
        s.frame_end(now, whip_gone).mercy_active == s.mercy_active,
        s.frame_end(now, whip_gone).mercy_start == s.mercy_start,
        s.frame_end(now, whip_gone).spawn_requested == s.spawn_requested,
        s.frame_end(now, whip_gone).first_frame == s.first_frame,
        whip_gone ==> s.frame_end(now, whip_gone).whip == WhipState::Absent,
        !whip_gone ==> s.frame_end(now, whip_gone).whip == s.whip,
        (whip_gone || s.whip == WhipState::Absent) && !s.mercy_active && s.daily_cracks > 0
            ==> s.frame_view(now, whip_gone).hint == Hint::Count(s.daily_cracks),
        (whip_gone || s.whip == WhipState::Absent) && !s.mercy_active && s.daily_cracks == 0
            ==> s.frame_view(now, whip_gone).hint == Hint::Plain,
{
}

/// Every roast and every plea can be typed: outside mercy mode, a crack that
/// does not start it types roast `i` (shouted from a combo of five) for the
/// roll `i`, and a crack that starts mercy mode types plea `j` for the roll `j`.
pub proof fn lemma_every_phrase_reachable(s: Session, now: u64, i: u32, j: u32)
    requires
        i < ROAST_COUNT,
        j < PLEA_COUNT,
    ensures
        !s.mercy_active && !s.starts_mercy(now) ==> s.crack_action(now, i).phrase == Some(
            if s.next_combo(now) >= SHOUT_COMBO {
                Phrase::Shouted(i as usize)
            } else {
                Phrase::Roast(i as usize)
            },
        ),
        s.starts_mercy(now) ==> s.crack_action(now, j).phrase == Some(Phrase::Plea(j as usize)),
{
}

} // verus!
