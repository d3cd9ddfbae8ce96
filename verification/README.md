# whipclaude

The decision logic of the WhipClaude overlay as a verified library, with the
window, tray, audio and keyboard plumbing around it in `app/`.

- `src/crack.rs` — when a whip's swing counts as a crack (spawn grace, cooldown).
- `src/session.rs` — combos, mercy mode, the daily counter and what each frame
  asks the window to do, with the laws that hold of them.
- `src/phrases.rs` — the phrases and how one is picked and shouted.
- `src/audio.rs`, `src/keyboard.rs` — the handles that feed the audio and
  typing threads.
- `src/cli.rs` — reading the command line.
- `app/` — the overlay program: rope physics (floating point), drawing, tray,
  audio output and keystrokes.

Time is a count of nanoseconds on a monotonic clock; `app/` reads the clock
and hands the library plain numbers. The sounds and the tray icon are compiled
into the program from `assets/`: `sounds/A.mp3` to `sounds/E.mp3` for whip
cracks, `sounds/yowl.mp3` and `sounds/scream.mp3` for high combos, and
`icon.png`. They must be put in place before building `app/`.
