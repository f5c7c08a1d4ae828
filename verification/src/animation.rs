//! The animation selector and driver: the clip catalog, the repeating frame
//! timer, the one-shot idle-duration clock, and the per-tick frame advance
//! that emits the finished events bounding transient states.

use vstd::prelude::*;
use crate::state::{PlayerState, PlayerStateKind, PlayerStatus, top_tag};

verus! {

/// The longest time span, in milliseconds, a timer duration or a tick delta
/// may hold: one day.  Keeps all timer arithmetic far from overflow.
pub const TIME_LIMIT_MS: u64 = 86_400_000;

/// How long, in milliseconds, the player must idle before the long "bored"
/// idle clip replaces the short "settle" clip.
pub const IDLE_VARIANT_MS: u64 = 2000;

/// A repeating countdown: fires each time `duration_ms` of tick deltas has
/// accumulated, then starts over with the remainder.
#[derive(Clone, Copy, PartialEq, Eq, Structural, Debug)]
pub struct FrameTimer {
    pub duration_ms: u64,
    pub elapsed_ms: u64,
}

impl FrameTimer {
    pub open spec fn wf(self) -> bool {
        &&& 0 < self.duration_ms <= TIME_LIMIT_MS
        &&& self.elapsed_ms < self.duration_ms
    }

    pub open spec fn spec_new(duration_ms: u64) -> FrameTimer {
        FrameTimer { duration_ms, elapsed_ms: 0 }
    }

    pub fn new(duration_ms: u64) -> (t: FrameTimer)
        requires
            0 < duration_ms <= TIME_LIMIT_MS,
        ensures
            t == FrameTimer::spec_new(duration_ms),
            t.wf(),
    {
        FrameTimer { duration_ms, elapsed_ms: 0 }
    }

    /// Whether accumulating `delta_ms` more makes the timer fire.
    pub open spec fn spec_fires(self, delta_ms: u64) -> bool {
        self.elapsed_ms + delta_ms >= self.duration_ms
    }

    /// The timer after accumulating `delta_ms`: on a fire the accumulated
    /// time wraps modulo the duration.
    pub open spec fn spec_tick(self, delta_ms: u64) -> FrameTimer {
        if self.spec_fires(delta_ms) {
            FrameTimer {
                duration_ms: self.duration_ms,
                elapsed_ms: ((self.elapsed_ms + delta_ms) % (self.duration_ms as int)) as u64,
            }
        } else {
            FrameTimer {
                duration_ms: self.duration_ms,
                elapsed_ms: (self.elapsed_ms + delta_ms) as u64,
            }
        }
    }

    /// Advance the countdown by `delta_ms`; reports whether it fired.
    pub fn tick(&mut self, delta_ms: u64) -> (fired: bool)
        requires
            old(self).wf(),
            delta_ms <= TIME_LIMIT_MS,
        ensures
            fired == old(self).spec_fires(delta_ms),
            *final(self) == old(self).spec_tick(delta_ms),
            final(self).wf(),
    {
        let total = self.elapsed_ms + delta_ms;
        if total >= self.duration_ms {
            self.elapsed_ms = total % self.duration_ms;
            true
        } else {
            self.elapsed_ms = total;
            false
        }
    }
}

/// The one-shot idle-duration clock: accumulates while the player idles,
/// saturates at IDLE_VARIANT_MS, and is reset whenever the active tag
/// leaves Idle.
#[derive(Clone, Copy, PartialEq, Eq, Structural, Debug)]
pub struct IdleTimer {
    pub elapsed_ms: u64,
}

impl IdleTimer {
    pub open spec fn wf(self) -> bool {
        self.elapsed_ms <= IDLE_VARIANT_MS
    }

    pub open spec fn spec_new() -> IdleTimer {
        IdleTimer { elapsed_ms: 0 }
    }

    pub fn new() -> (t: IdleTimer)
        ensures
            t == IdleTimer::spec_new(),
            t.wf(),
    {
        IdleTimer { elapsed_ms: 0 }
    }

    /// The clock after `delta_ms` more idling, capped at the threshold.
    pub open spec fn spec_tick(self, delta_ms: u64) -> IdleTimer {
        if self.elapsed_ms + delta_ms >= IDLE_VARIANT_MS {
            IdleTimer { elapsed_ms: IDLE_VARIANT_MS }
        } else {
            IdleTimer { elapsed_ms: (self.elapsed_ms + delta_ms) as u64 }
        }
    }

    /// Whether the idle threshold has elapsed: the long idle clip plays.
    pub open spec fn spec_finished(self) -> bool {
        self.elapsed_ms >= IDLE_VARIANT_MS
    }

    /// Accumulate `delta_ms` of idling.
    pub fn tick(&mut self, delta_ms: u64)
        requires
            old(self).wf(),
            delta_ms <= TIME_LIMIT_MS,
        ensures
            *final(self) == old(self).spec_tick(delta_ms),
            final(self).wf(),
    {
        let total = self.elapsed_ms + delta_ms;
        if total >= IDLE_VARIANT_MS {
            self.elapsed_ms = IDLE_VARIANT_MS;
        } else {
            self.elapsed_ms = total;
        }
    }

    /// Whether the idle threshold has elapsed.
    pub fn finished(&self) -> (b: bool)
        ensures
            b == self.spec_finished(),
    {
        self.elapsed_ms >= IDLE_VARIANT_MS
    }

    /// Start over: called the moment the active tag leaves Idle.
    pub fn reset(&mut self)
        ensures
            *final(self) == IdleTimer::spec_new(),
            final(self).wf(),
    {
        self.elapsed_ms = 0;
    }
}

/// Largest frame index a clip may use.
pub const FRAME_LIMIT: usize = 1_000_000;

/// One clip: a start frame, an end frame (inclusive), and how long each
/// frame is shown, in milliseconds.
#[derive(Clone, Copy, PartialEq, Eq, Structural, Debug)]
pub struct AnimationClip {
    pub start: usize,
    pub end: usize,
    pub frame_duration_ms: u64,
}

impl AnimationClip {
    pub open spec fn wf(self) -> bool {
        &&& self.start <= self.end <= FRAME_LIMIT
        &&& 0 < self.frame_duration_ms <= TIME_LIMIT_MS
    }
}

/// The clip catalog: one clip per semantic name, read-only at runtime.
#[derive(Clone, Copy, PartialEq, Eq, Structural, Debug)]
pub struct AnimationClips {
    pub idle_1: AnimationClip,
    pub idle_2: AnimationClip,
    pub walk: AnimationClip,
    pub run: AnimationClip,
    pub jump: AnimationClip,
    pub attack_1: AnimationClip,
    pub attack_2: AnimationClip,
    pub attack_3: AnimationClip,
    pub hurt: AnimationClip,
    pub dead: AnimationClip,
}

impl AnimationClips {
    pub open spec fn wf(self) -> bool {
        &&& self.idle_1.wf()
        &&& self.idle_2.wf()
        &&& self.walk.wf()
        &&& self.run.wf()
        &&& self.jump.wf()
        &&& self.attack_1.wf()
        &&& self.attack_2.wf()
        &&& self.attack_3.wf()
        &&& self.hurt.wf()
        &&& self.dead.wf()
    }
}

/// The catalog the game ships: frame ranges on the player sprite sheet, at
/// twelve frames per second for idling, ten for locomotion, fifteen for
/// attacks and five for dying.
pub open spec fn clip_catalog() -> AnimationClips {
    AnimationClips {
        idle_1: AnimationClip { start: 0, end: 6, frame_duration_ms: 83 },
        idle_2: AnimationClip { start: 7, end: 19, frame_duration_ms: 83 },
        walk: AnimationClip { start: 20, end: 29, frame_duration_ms: 100 },
        run: AnimationClip { start: 30, end: 39, frame_duration_ms: 100 },
        jump: AnimationClip { start: 40, end: 49, frame_duration_ms: 100 },
        attack_1: AnimationClip { start: 50, end: 55, frame_duration_ms: 66 },
        attack_2: AnimationClip { start: 56, end: 59, frame_duration_ms: 66 },
        attack_3: AnimationClip { start: 60, end: 65, frame_duration_ms: 66 },
        hurt: AnimationClip { start: 66, end: 69, frame_duration_ms: 100 },
        dead: AnimationClip { start: 70, end: 74, frame_duration_ms: 200 },
    }
}

/// Build the clip catalog, as the scene-entry hook installs it.
pub fn setup_animation_clips() -> (clips: AnimationClips)
    ensures
        clips == clip_catalog(),
        clips.wf(),
{
    AnimationClips {
        idle_1: AnimationClip { start: 0, end: 6, frame_duration_ms: 83 },
        idle_2: AnimationClip { start: 7, end: 19, frame_duration_ms: 83 },
        walk: AnimationClip { start: 20, end: 29, frame_duration_ms: 100 },
        run: AnimationClip { start: 30, end: 39, frame_duration_ms: 100 },
        jump: AnimationClip { start: 40, end: 49, frame_duration_ms: 100 },
        attack_1: AnimationClip { start: 50, end: 55, frame_duration_ms: 66 },
        attack_2: AnimationClip { start: 56, end: 59, frame_duration_ms: 66 },
        attack_3: AnimationClip { start: 60, end: 65, frame_duration_ms: 66 },
        hurt: AnimationClip { start: 66, end: 69, frame_duration_ms: 100 },
        dead: AnimationClip { start: 70, end: 74, frame_duration_ms: 200 },
    }
}

/// The playback record: the loaded clip's frame range, the displayed frame,
/// and the repeating frame countdown.
#[derive(Clone, Copy, PartialEq, Eq, Structural, Debug)]
pub struct SpriteAnimState {
    pub start_index: usize,
    pub end_index: usize,
    pub index: usize,
    pub timer: FrameTimer,
}

impl SpriteAnimState {
    pub open spec fn wf(self) -> bool {
        &&& self.start_index <= self.index <= self.end_index <= FRAME_LIMIT
        &&& self.timer.wf()
    }

    /// Playback loaded from a clip: displayed frame at the clip's start, a
    /// fresh countdown of the clip's frame duration.
    pub open spec fn spec_from_clip(clip: AnimationClip) -> SpriteAnimState {
        SpriteAnimState {
            start_index: clip.start,
            end_index: clip.end,
            index: clip.start,
            timer: FrameTimer::spec_new(clip.frame_duration_ms),
        }
    }

    pub fn from_clip(clip: &AnimationClip) -> (anim: SpriteAnimState)
        requires
            clip.wf(),
        ensures
            anim == SpriteAnimState::spec_from_clip(*clip),
            anim.wf(),
    {
        SpriteAnimState {
            start_index: clip.start,
            end_index: clip.end,
            index: clip.start,
            timer: FrameTimer::new(clip.frame_duration_ms),
        }
    }

    /// Whether this playback record already plays the given clip.
    pub open spec fn spec_plays(self, clip: AnimationClip) -> bool {
        &&& self.start_index == clip.start
        &&& self.end_index == clip.end
        &&& self.timer.duration_ms == clip.frame_duration_ms
    }

    pub fn plays(&self, clip: &AnimationClip) -> (b: bool)
        ensures
            b == self.spec_plays(*clip),
    {
        self.start_index == clip.start && self.end_index == clip.end
            && self.timer.duration_ms == clip.frame_duration_ms
    }
}

impl Default for SpriteAnimState {
    /// Playback before the first selection pass: frames 0 through 12 at
    /// twelve frames per second, showing frame 0.
    fn default() -> (anim: Self)
        ensures
            anim.start_index == 0,
            anim.end_index == 12,
            anim.index == 0,
            anim.timer == FrameTimer::spec_new(83),
            anim.wf(),
    {
        SpriteAnimState { start_index: 0, end_index: 12, index: 0, timer: FrameTimer::new(83) }
    }
}

/// Playback after one driver tick: when the countdown fires the displayed
/// frame advances by one; a frame past the clip's end wraps to the clip's
/// start and the clip is finished.
pub open spec fn spec_advance(anim: SpriteAnimState, delta_ms: u64) -> (SpriteAnimState, bool) {
    let t1 = anim.timer.spec_tick(delta_ms);
    if anim.timer.spec_fires(delta_ms) {
        if anim.index + 1 > anim.end_index {
            (SpriteAnimState { index: anim.start_index, timer: t1, ..anim }, true)
        } else {
            (SpriteAnimState { index: (anim.index + 1) as usize, timer: t1, ..anim }, false)
        }
    } else {
        (SpriteAnimState { timer: t1, ..anim }, false)
    }
}

/// The driver's per-tick advance: tick the frame countdown; on a fire show
/// the next frame, wrapping past the clip's end back to its start.  Returns
/// whether the clip finished — the sole mechanism bounding transient
/// states, consumed by the state stack machine at the next tick's start.
pub fn animate_sprite(anim: &mut SpriteAnimState, delta_ms: u64) -> (finished: bool)
    requires
        old(anim).wf(),
        delta_ms <= TIME_LIMIT_MS,
    ensures
        *final(anim) == spec_advance(*old(anim), delta_ms).0,
        finished == spec_advance(*old(anim), delta_ms).1,
        final(anim).wf(),
{
    let fired = anim.timer.tick(delta_ms);
    if fired {
        if anim.index >= anim.end_index {
            anim.index = anim.start_index;
            return true;
        } else {
            anim.index = anim.index + 1;
        }
    }
    false
}

/// The clip for an active tag: Idle picks the short or the long idle clip
/// by the idle clock; Attack picks among the three variants by the combo
/// counter, which was already advanced when the attack was accepted, so
/// counter value 1 shows the first variant, 2 the second, and the wrapped 0
/// the third.
pub open spec fn spec_select_clip(
    active: PlayerStateKind,
    idle_long: bool,
    combo: u8,
    clips: AnimationClips,
) -> AnimationClip {
    match active {
        PlayerStateKind::Idle => if idle_long {
            clips.idle_2
        } else {
            clips.idle_1
        },
        PlayerStateKind::Walk(_) => clips.walk,
        PlayerStateKind::Run(_) => clips.run,
        PlayerStateKind::Jump(_) => clips.jump,
        PlayerStateKind::Attack => if combo == 1 {
            clips.attack_1
        } else if combo == 2 {
            clips.attack_2
        } else {
            clips.attack_3
        },
        PlayerStateKind::Hurt => clips.hurt,
        PlayerStateKind::Dead => clips.dead,
    }
}

/// Map an active tag to its clip.
pub fn select_clip(
    active: PlayerStateKind,
    idle_long: bool,
    combo: u8,
    clips: &AnimationClips,
) -> (clip: AnimationClip)
    ensures
        clip == spec_select_clip(active, idle_long, combo, *clips),
{
    match active {
        PlayerStateKind::Idle => if idle_long {
            clips.idle_2
        } else {
            clips.idle_1
        },
        PlayerStateKind::Walk(_) => clips.walk,
        PlayerStateKind::Run(_) => clips.run,
        PlayerStateKind::Jump(_) => clips.jump,
        PlayerStateKind::Attack => if combo == 1 {
            clips.attack_1
        } else if combo == 2 {
            clips.attack_2
        } else {
            clips.attack_3
        },
        PlayerStateKind::Hurt => clips.hurt,
        PlayerStateKind::Dead => clips.dead,
    }
}

/// The selector's outcome for one tick: the idle clock ticks while the
/// active tag is Idle and resets the moment it is not; the mapped clip
/// replaces the loaded one only when it differs, resetting playback to the
/// clip's start — re-selecting the same clip never resets it.
pub open spec fn spec_update_player_animation(
    anim: SpriteAnimState,
    idle_timer: IdleTimer,
    active: PlayerStateKind,
    combo: u8,
    clips: AnimationClips,
    delta_ms: u64,
) -> (SpriteAnimState, IdleTimer) {
    let t1 = if active is Idle {
        idle_timer.spec_tick(delta_ms)
    } else {
        IdleTimer::spec_new()
    };
    let clip = spec_select_clip(active, t1.spec_finished(), combo, clips);
    if anim.spec_plays(clip) {
        (anim, t1)
    } else {
        (SpriteAnimState::spec_from_clip(clip), t1)
    }
}

/// The selector pass: advance or reset the idle clock, map the active state
/// to a clip, and when the mapped clip differs from the loaded one reset
/// playback to it — exactly once per semantic change.
pub fn update_player_animation(
    anim: &mut SpriteAnimState,
    status: &mut PlayerStatus,
    state: &PlayerState,
    clips: &AnimationClips,
    delta_ms: u64,
)
    requires
        old(anim).wf(),
        old(status).idle_timer.wf(),
        clips.wf(),
        delta_ms <= TIME_LIMIT_MS,
    ensures
        ({
            let (anim1, t1) = spec_update_player_animation(
                *old(anim),
                old(status).idle_timer,
                top_tag(state@),
                old(status).attack_combo,
                *clips,
                delta_ms,
            );
            &&& *final(anim) == anim1
            &&& final(status).idle_timer == t1
        }),
        final(anim).wf(),
        final(status).idle_timer.wf(),
        final(status).hp == old(status).hp,
        final(status).points == old(status).points,
        final(status).attack_combo == old(status).attack_combo,
{
    if matches!(state.current_state(), PlayerStateKind::Idle) {
        status.idle_timer.tick(delta_ms);
    } else {
        status.idle_timer.reset();
    }
    let clip = select_clip(
        state.current_state(),
        status.idle_timer.finished(),
        status.attack_combo,
        clips,
    );
    if !anim.plays(&clip) {
        *anim = SpriteAnimState::from_clip(&clip);
    }
}

} // verus!
