use vstd::prelude::*;
use crate::timing::{elapsed, elapsed_millis, elapsed_ns, NANOS_PER_MILLI, NANOS_PER_SEC};

verus! {

/// Milliseconds that must pass after one crack before the next one counts.
pub const CRACK_COOLDOWN_MS: u64 = 200;

/// Milliseconds after a whip appears during which it cannot crack.
pub const FIRST_CRACK_GRACE_MS: u64 = 350;

/// How far before its spawn a new whip's last crack is placed, so that the
/// cooldown never holds back its first crack.
pub const FAR_PAST_NS: u64 = 10 * NANOS_PER_SEC;

/// The crack bookkeeping of one whip: when it appeared and when it last cracked.
#[derive(Clone, Copy, Debug, PartialEq, Eq, Structural)]
pub struct CrackTimer {
    pub spawn_time: u64,
    pub last_crack_time: u64,
}

impl CrackTimer {
    /// The timer of a whip spawned at `now`.
    pub open spec fn spawned_at(now: u64) -> CrackTimer {
        CrackTimer {
            spawn_time: now,
            last_crack_time: if now >= FAR_PAST_NS { (now - FAR_PAST_NS) as u64 } else { now },
        }
    }

    /// Both the spawn grace and the cooldown since the last crack are over at `now`.
    pub open spec fn ready(self, now: u64) -> bool {
        &&& elapsed_millis(now, self.spawn_time) >= FIRST_CRACK_GRACE_MS
        &&& elapsed_millis(now, self.last_crack_time) > CRACK_COOLDOWN_MS
    }

    /// Whether a frame at `now` cracks: the whip is held (not dropping), its tip
    /// moves faster than the crack speed, and the timer is ready.
    pub open spec fn cracks(self, now: u64, dropping: bool, tip_fast: bool) -> bool {
        !dropping && tip_fast && self.ready(now)
    }

    /// The timer after a frame at `now`.
    pub open spec fn after(self, now: u64, dropping: bool, tip_fast: bool) -> CrackTimer {
        if self.cracks(now, dropping, tip_fast) {
            CrackTimer { last_crack_time: now, ..self }
        } else {
            self
        }
    }

    /// A timer for a whip that appears at `now`.
    pub fn new(now: u64) -> (t: CrackTimer)
        ensures
            t == CrackTimer::spawned_at(now),
    {
        let last_crack_time = if now >= FAR_PAST_NS { now - FAR_PAST_NS } else { now };
        CrackTimer { spawn_time: now, last_crack_time }
    }

    /// Decides whether the frame at `now` cracks the whip, and if so records it.
    pub fn try_crack(&mut self, now: u64, dropping: bool, tip_fast: bool) -> (cracked: bool)
        ensures
            cracked == old(self).cracks(now, dropping, tip_fast),
            *final(self) == old(self).after(now, dropping, tip_fast),
    {
        if dropping || !tip_fast {
            return false;
        }
        let since_spawn = elapsed_ns(now, self.spawn_time) / NANOS_PER_MILLI;
        let since_crack = elapsed_ns(now, self.last_crack_time) / NANOS_PER_MILLI;
        if since_spawn >= FIRST_CRACK_GRACE_MS && since_crack > CRACK_COOLDOWN_MS {
            self.last_crack_time = now;
            true
        } else {
            false
        }
    }
}

/// Two cracks of one whip lie more than the cooldown apart: after a crack at
/// `t1`, no frame at `t2` that follows within 200 whole milliseconds cracks.
pub proof fn lemma_cooldown_between_cracks(
    timer: CrackTimer,
    t1: u64,
    t2: u64,
    drop1: bool,
    fast1: bool,
    drop2: bool,
    fast2: bool,
)
    requires
        t1 <= t2,
        elapsed_millis(t2, t1) <= CRACK_COOLDOWN_MS,
        timer.cracks(t1, drop1, fast1),
    ensures
        !timer.after(t1, drop1, fast1).cracks(t2, drop2, fast2),
{
}

/// No whip cracks during its first 350 milliseconds.
pub proof fn lemma_no_crack_during_grace(t0: u64, now: u64, dropping: bool, tip_fast: bool)
    requires
        elapsed_millis(now, t0) < FIRST_CRACK_GRACE_MS,
    ensures
        !CrackTimer::spawned_at(t0).cracks(now, dropping, tip_fast),
{
}

/// A new whip's first crack comes as soon as the grace is over: the cooldown
/// never holds it back.
pub proof fn lemma_first_crack_after_grace(t0: u64, now: u64)
    requires
        t0 <= now,
        elapsed_millis(now, t0) >= FIRST_CRACK_GRACE_MS,
    ensures
        CrackTimer::spawned_at(t0).cracks(now, false, true),
{
    let t = CrackTimer::spawned_at(t0);
    assert(elapsed(now, t.last_crack_time) >= elapsed(now, t0));
    assert(elapsed_millis(now, t.last_crack_time) >= elapsed_millis(now, t0)) by (nonlinear_arith)
        requires
            elapsed(now, t.last_crack_time) >= elapsed(now, t0),
            elapsed(now, t0) >= 0,
    {
    }
}

/// A frame as the crack timer sees it: its time, whether the whip is
/// dropping, and whether the tip moves faster than the crack speed.
pub type CrackFrame = (u64, bool, bool);

/// The timer after the first `k` frames of a run.
pub open spec fn timer_after(timer: CrackTimer, frames: Seq<CrackFrame>, k: int) -> CrackTimer
    decreases k,
{
    if k <= 0 || k > frames.len() {
        timer
    } else {
        let f = frames[k - 1];
        timer_after(timer, frames, k - 1).after(f.0, f.1, f.2)
    }
}

/// Frame `k` of a run cracks the whip.
pub open spec fn cracks_in_run(timer: CrackTimer, frames: Seq<CrackFrame>, k: int) -> bool {
    let f = frames[k];
    timer_after(timer, frames, k).cracks(f.0, f.1, f.2)
}

/// The frames of a run come in time order.
pub open spec fn in_time_order(frames: Seq<CrackFrame>) -> bool {
    forall|i: int, j: int| 0 <= i <= j < frames.len() ==> frames[i].0 <= frames[j].0
}

/// After a crack at frame `i`, the timer's last crack lies between that
/// frame's time and the time of the latest frame run so far.
proof fn lemma_last_crack_since(timer: CrackTimer, frames: Seq<CrackFrame>, i: int, k: int)
    requires
        in_time_order(frames),
        0 <= i < k <= frames.len(),
        cracks_in_run(timer, frames, i),
    ensures
        frames[i].0 <= timer_after(timer, frames, k).last_crack_time <= frames[k - 1].0,
    decreases k,
{
    if k > i + 1 {
        lemma_last_crack_since(timer, frames, i, k - 1);
    }
}

/// Two cracks of one whip, with any frames between them, lie more than the
/// cooldown apart: in a run of frames in time order, if frames `i` and `j`
/// (with `i` before `j`) both crack, more than 200 whole milliseconds
/// separate them.
pub proof fn lemma_cracks_apart_in_run(timer: CrackTimer, frames: Seq<CrackFrame>, i: int, j: int)
    requires
        in_time_order(frames),
        0 <= i < j < frames.len(),
        cracks_in_run(timer, frames, i),
        cracks_in_run(timer, frames, j),
    ensures
        elapsed_millis(frames[j].0, frames[i].0) > CRACK_COOLDOWN_MS,
{
    lemma_last_crack_since(timer, frames, i, j);
    let last = timer_after(timer, frames, j).last_crack_time;
    let tj = frames[j].0;
    let ti = frames[i].0;
    assert(ti <= last <= tj);
    assert(elapsed(tj, last) <= elapsed(tj, ti));
    assert(elapsed(tj, last) / (NANOS_PER_MILLI as int) <= elapsed(tj, ti) / (NANOS_PER_MILLI as int)) by (nonlinear_arith)
        requires
            0 <= elapsed(tj, last) <= elapsed(tj, ti),
    {
    }
}

/// The crack rule, for any timer: a frame cracks exactly when the whip is
/// held, its tip is fast, at least 350 whole milliseconds have passed since
/// the whip appeared and more than 200 since its last crack; a crack records
/// the frame's time, and a frame that does not crack leaves the timer as it
/// was.
pub proof fn lemma_crack_rule(timer: CrackTimer, now: u64, dropping: bool, tip_fast: bool)
    ensures
        timer.cracks(now, dropping, tip_fast) <==> (!dropping && tip_fast && elapsed_millis(
            now,
            timer.spawn_time,
        ) >= 350 && elapsed_millis(now, timer.last_crack_time) > 200),
        timer.cracks(now, dropping, tip_fast) ==> timer.after(now, dropping, tip_fast)
            == (CrackTimer { spawn_time: timer.spawn_time, last_crack_time: now }),
        !timer.cracks(now, dropping, tip_fast) ==> timer.after(now, dropping, tip_fast) == timer,
{
}

/// However long the pause since the last crack, a held whip with a fast tip
/// cracks again once the grace after its spawn is over: after a crack at
/// `t1`, a frame at any later `t2` more than 200 milliseconds on cracks.
pub proof fn lemma_cracks_again_after_any_pause(timer: CrackTimer, t1: u64, t2: u64)
    requires
        t1 <= t2,
        elapsed_millis(t2, t1) > 200,
        timer.cracks(t1, false, true),
    ensures
        timer.after(t1, false, true).cracks(t2, false, true),
        timer.after(t1, false, true).after(t2, false, true).last_crack_time == t2,
{
    let t = timer.after(t1, false, true);
    assert(t.spawn_time == timer.spawn_time);
    assert(elapsed(t1, timer.spawn_time) <= elapsed(t2, timer.spawn_time));
    assert(elapsed(t1, timer.spawn_time) / (NANOS_PER_MILLI as int) <= elapsed(t2, timer.spawn_time)
        / (NANOS_PER_MILLI as int)) by (nonlinear_arith)
        requires
            0 <= elapsed(t1, timer.spawn_time) <= elapsed(t2, timer.spawn_time),
    {
    }
}

} // verus!
