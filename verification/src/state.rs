//! The state stack machine: an ordered stack of behavior tags per player,
//! mutated by intent events and animation-finished events, plus the
//! attack-combo counter.

use vstd::prelude::*;
use crate::{WALK_SPEED, JUMP_SPEED, COMBO_VARIANTS};
use crate::laws::{lemma_step_intent_wf, lemma_step_finished_wf, lemma_run_intents_snoc};
use crate::physics::Physics;

verus! {

/// A signed two-dimensional vector of spatial units.
#[derive(Clone, Copy, PartialEq, Eq, Structural, Debug)]
pub struct Vec2 {
    pub x: i64,
    pub y: i64,
}

impl Vec2 {
    pub open spec fn spec_zero() -> Vec2 {
        Vec2 { x: 0, y: 0 }
    }

    pub fn zero() -> (v: Vec2)
        ensures
            v == Vec2::spec_zero(),
    {
        Vec2 { x: 0, y: 0 }
    }
}

/// Which way the player moves horizontally.
#[derive(Clone, Copy, PartialEq, Eq, Structural, Debug)]
pub enum MoveDirection {
    Left,
    Right,
}

/// One behavior tag on the state stack.  Walk and Run carry a horizontal
/// velocity (units per second), Jump carries a full 2D impulse.
#[derive(Clone, Copy, PartialEq, Eq, Structural, Debug)]
pub enum PlayerStateKind {
    Idle,
    Walk(Vec2),
    Run(Vec2),
    Jump(Vec2),
    Attack,
    Hurt,
    Dead,
}

/// The ordered state stack: insertion order is recency, the last element is
/// the active state.
#[derive(Debug)]
pub struct PlayerState(pub Vec<PlayerStateKind>);

impl View for PlayerState {
    type V = Seq<PlayerStateKind>;

    open spec fn view(&self) -> Seq<PlayerStateKind> {
        self.0@
    }
}

/// The active tag of a stack: its last element, or Idle for an empty stack.
pub open spec fn top_tag(s: Seq<PlayerStateKind>) -> PlayerStateKind {
    if s.len() == 0 {
        PlayerStateKind::Idle
    } else {
        s.last()
    }
}

/// The predicate picking out the Idle tags.
pub open spec fn is_idle_tag() -> spec_fn(PlayerStateKind) -> bool {
    |t: PlayerStateKind| t is Idle
}

/// How many Idle tags a stack holds.
pub open spec fn idle_count(s: Seq<PlayerStateKind>) -> nat {
    s.filter(is_idle_tag()).len()
}

/// Stack well-formedness: never empty, at most one Idle tag, and every
/// payload one the machine makes.
pub open spec fn wf_stack(s: Seq<PlayerStateKind>) -> bool {
    &&& s.len() > 0
    &&& idle_count(s) <= 1
    &&& valid_tags(s)
}

/// The predicate keeping every tag but Idle.
pub open spec fn not_idle() -> spec_fn(PlayerStateKind) -> bool {
    |t: PlayerStateKind| !(t is Idle)
}

/// The stack with every Idle tag removed.
pub open spec fn clear_idle(s: Seq<PlayerStateKind>) -> Seq<PlayerStateKind> {
    s.filter(not_idle())
}

/// Whether any Walk or Run tag is present.
pub open spec fn has_movement(s: Seq<PlayerStateKind>) -> bool {
    exists|i: int| 0 <= i < s.len() && (s[i] is Walk || s[i] is Run)
}

/// Whether the capability check for an attack passes: attacks start only
/// from Idle, Walk or Run.
pub open spec fn spec_can_attack(s: Seq<PlayerStateKind>) -> bool {
    top_tag(s) is Idle || top_tag(s) is Walk || top_tag(s) is Run
}

impl PlayerState {
    /// The active state: the top of the stack, Idle when the stack is empty.
    pub fn current_state(&self) -> (t: PlayerStateKind)
        ensures
            t == top_tag(self@),
    {
        let n = self.0.len();
        if n == 0 {
            PlayerStateKind::Idle
        } else {
            self.0[n - 1]
        }
    }

    /// Push a tag on top of the stack.
    pub fn push_state(&mut self, new_state: PlayerStateKind)
        requires
            old(self)@.len() < usize::MAX,
        ensures
            final(self)@ == old(self)@.push(new_state),
    {
        self.0.push(new_state);
    }

    /// Whether the player may start an attack in the active state.
    pub fn can_attack(&self) -> (b: bool)
        ensures
            b == spec_can_attack(self@),
    {
        matches!(
            self.current_state(),
            PlayerStateKind::Idle | PlayerStateKind::Walk(_) | PlayerStateKind::Run(_)
        )
    }
}

/// Health, score, the wrapping attack-combo counter, and the idle-duration
/// clock (the clock itself lives with the animation driver; its elapsed time
/// is tracked here).
#[derive(Debug)]
pub struct PlayerStatus {
    pub hp: u32,
    pub points: u32,
    pub attack_combo: u8,
    pub idle_timer: crate::animation::IdleTimer,
}

/// Status well-formedness: the combo counter stays below the number of
/// attack clip variants, and the idle clock is well formed.
pub open spec fn wf_status(st: PlayerStatus) -> bool {
    &&& st.attack_combo < COMBO_VARIANTS
    &&& st.idle_timer.wf()
}

impl Default for PlayerStatus {
    /// A freshly spawned player has full health, no score, combo zero, and a
    /// fresh idle clock.
    fn default() -> (st: Self)
        ensures
            st.hp == 100,
            st.points == 0,
            st.attack_combo == 0,
            st.idle_timer == crate::animation::IdleTimer::spec_new(),
            wf_status(st),
    {
        PlayerStatus {
            hp: 100,
            points: 0,
            attack_combo: 0,
            idle_timer: crate::animation::IdleTimer::new(),
        }
    }
}

/// One semantic intent event, as the input translator emits them.
#[derive(Clone, Copy, PartialEq, Eq, Structural, Debug)]
pub enum PlayerInputs {
    Walk(MoveDirection),
    Run,
    Attack,
    Jump,
    WalkEnd(MoveDirection),
    RunEnd,
}

/// The fixed walk velocity for a direction: WALK_SPEED signed by direction.
pub open spec fn spec_walk_velocity(dir: MoveDirection) -> Vec2 {
    match dir {
        MoveDirection::Left => Vec2 { x: (-(WALK_SPEED as int)) as i64, y: 0 },
        MoveDirection::Right => Vec2 { x: WALK_SPEED, y: 0 },
    }
}

/// The velocity payloads the machine ever stores: Walk tags carry the fixed
/// walk speed signed by direction, Run tags twice that, Jump tags a carried
/// horizontal component and the fixed jump impulse.  Idle, Attack, Hurt and
/// Dead carry no payload.
pub open spec fn valid_tag(t: PlayerStateKind) -> bool {
    match t {
        PlayerStateKind::Idle => true,
        PlayerStateKind::Walk(v) => (v.x == WALK_SPEED || v.x == -(WALK_SPEED as int)) && v.y == 0,
        PlayerStateKind::Run(v) => (v.x == 2 * WALK_SPEED || v.x == -2 * (WALK_SPEED as int))
            && v.y == 0,
        PlayerStateKind::Jump(v) => {
            &&& (v.x == 0 || v.x == WALK_SPEED || v.x == -(WALK_SPEED as int)
                || v.x == 2 * WALK_SPEED || v.x == -2 * (WALK_SPEED as int))
            &&& v.y == JUMP_SPEED
        },
        PlayerStateKind::Attack => true,
        PlayerStateKind::Hurt => true,
        PlayerStateKind::Dead => true,
    }
}

/// All tags of a stack carry machine-made payloads.
pub open spec fn valid_tags(s: Seq<PlayerStateKind>) -> bool {
    forall|i: int| 0 <= i < s.len() ==> valid_tag(#[trigger] s[i])
}

/// The part of the player that the state stack machine reads and writes:
/// the stack, the combo counter, the velocity it may zero or override, and
/// the grounded flag buffered from the previous tick's collision pass.
#[verifier::ext_equal]
pub ghost struct StateView {
    pub stack: Seq<PlayerStateKind>,
    pub combo: u8,
    pub velocity: Vec2,
    pub grounded: bool,
}

/// View well-formedness: stack invariants plus the combo bound.
pub open spec fn wf_view(m: StateView) -> bool {
    &&& wf_stack(m.stack)
    &&& m.combo < COMBO_VARIANTS
}

/// Whether a tag is removed by releasing the walk key for `dir`: Walk tags
/// whose velocity sign matches the released direction, every Run tag, and —
/// since an Idle tag may be pushed right after — every Idle tag.
pub open spec fn removed_on_walk_end(t: PlayerStateKind, dir: MoveDirection) -> bool {
    ||| t matches PlayerStateKind::Walk(v)
        && ((v.x < 0 && dir is Left) || (v.x > 0 && dir is Right))
    ||| t is Run
    ||| t is Idle
}

/// The predicate keeping the tags that releasing the walk key for `dir`
/// leaves in place.
pub open spec fn walk_end_keep(dir: MoveDirection) -> spec_fn(PlayerStateKind) -> bool {
    |t: PlayerStateKind| !removed_on_walk_end(t, dir)
}

/// The stack after releasing the walk key for `dir`, before any Idle refill.
pub open spec fn walk_end_removal(s: Seq<PlayerStateKind>, dir: MoveDirection)
    -> Seq<PlayerStateKind> {
    s.filter(walk_end_keep(dir))
}

/// The machine after one intent event.  Ignored events (failed guards)
/// change nothing: invalid transitions are policy no-ops, not errors.
pub open spec fn step_intent_spec(m: StateView, ev: PlayerInputs) -> StateView {
    match ev {
        PlayerInputs::Walk(dir) => {
            if m.grounded {
                StateView {
                    stack: clear_idle(m.stack).push(PlayerStateKind::Walk(spec_walk_velocity(dir))),
                    ..m
                }
            } else {
                m
            }
        },
        PlayerInputs::Run => {
            match top_tag(m.stack) {
                PlayerStateKind::Walk(v) => {
                    if m.grounded {
                        StateView {
                            stack: clear_idle(m.stack).push(
                                PlayerStateKind::Run(Vec2 { x: (2 * v.x) as i64, y: v.y }),
                            ),
                            ..m
                        }
                    } else {
                        m
                    }
                },
                _ => m,
            }
        },
        PlayerInputs::Jump => {
            if m.grounded {
                let carry = match top_tag(m.stack) {
                    PlayerStateKind::Walk(v) => v.x,
                    PlayerStateKind::Run(v) => v.x,
                    _ => 0,
                };
                StateView {
                    stack: clear_idle(m.stack).push(
                        PlayerStateKind::Jump(Vec2 { x: carry, y: JUMP_SPEED }),
                    ),
                    ..m
                }
            } else {
                m
            }
        },
        PlayerInputs::Attack => {
            if m.grounded && spec_can_attack(m.stack) {
                StateView {
                    stack: clear_idle(m.stack).push(PlayerStateKind::Attack),
                    combo: ((m.combo + 1) % COMBO_VARIANTS as int) as u8,
                    ..m
                }
            } else {
                m
            }
        },
        PlayerInputs::WalkEnd(dir) => {
            let s1 = walk_end_removal(m.stack, dir);
            if m.grounded && !has_movement(s1) {
                StateView {
                    stack: s1.push(PlayerStateKind::Idle),
                    velocity: Vec2::spec_zero(),
                    ..m
                }
            } else if s1.len() == 0 {
                // The stack never survives empty: refill with Idle.
                StateView { stack: s1.push(PlayerStateKind::Idle), ..m }
            } else {
                StateView { stack: s1, ..m }
            }
        },
        PlayerInputs::RunEnd => {
            match top_tag(m.stack) {
                PlayerStateKind::Run(v) => {
                    if m.grounded {
                        StateView {
                            stack: m.stack.update(
                                m.stack.len() - 1,
                                PlayerStateKind::Walk(Vec2 { x: half(v.x), y: v.y }),
                            ),
                            velocity: Vec2::spec_zero(),
                            ..m
                        }
                    } else {
                        m
                    }
                },
                _ => m,
            }
        },
    }
}

/// Truncating halving, as the executable `/ 2` computes it on a signed value.
pub open spec fn half(x: i64) -> i64 {
    if x >= 0 {
        (x / 2) as i64
    } else {
        (-((-x) / 2)) as i64
    }
}

/// The machine after one animation-finished event: a transient active tag
/// (Attack or Jump) is popped; an emptied stack is refilled with Idle and
/// the horizontal velocity zeroed; the combo counter resets when the tag
/// revealed by the pop is itself an Attack.
pub open spec fn step_finished_spec(m: StateView) -> StateView {
    if top_tag(m.stack) is Attack || top_tag(m.stack) is Jump {
        let popped = m.stack.drop_last();
        let m1 = if popped.len() == 0 {
            StateView {
                stack: popped.push(PlayerStateKind::Idle),
                velocity: Vec2 { x: 0, y: m.velocity.y },
                ..m
            }
        } else {
            StateView { stack: popped, ..m }
        };
        if top_tag(m1.stack) is Attack {
            StateView { combo: 0, ..m1 }
        } else {
            m1
        }
    } else {
        m
    }
}

/// The machine after a whole sequence of intent events, in order.
pub open spec fn run_intents(m: StateView, evs: Seq<PlayerInputs>) -> StateView
    decreases evs.len(),
{
    if evs.len() == 0 {
        m
    } else {
        run_intents(step_intent_spec(m, evs[0]), evs.skip(1))
    }
}

/// The machine after one tick's worth of events: every intent event in
/// order, then the buffered animation-finished event, if one fired.
pub open spec fn machine_step(m: StateView, evs: Seq<PlayerInputs>, finished: bool) -> StateView {
    let m1 = run_intents(m, evs);
    if finished {
        step_finished_spec(m1)
    } else {
        m1
    }
}

/// The state-machine view of the executable pieces.
pub open spec fn view_of(state: PlayerState, status: PlayerStatus, velocity: Vec2, grounded: bool)
    -> StateView {
    StateView { stack: state@, combo: status.attack_combo, velocity, grounded }
}

/// Remove every Idle tag, in place.
fn remove_idle(v: &mut Vec<PlayerStateKind>)
    ensures
        final(v)@ == clear_idle(old(v)@),
        final(v)@.len() <= old(v)@.len(),
{
    let ghost orig = v@;
    let mut out: Vec<PlayerStateKind> = Vec::new();
    let n = v.len();
    let mut i: usize = 0;
    proof {
        assert(orig.take(0) =~= Seq::<PlayerStateKind>::empty());
        assert(clear_idle(orig.take(0)) =~= Seq::<PlayerStateKind>::empty());
    }
    while i < n
        invariant
            0 <= i <= n,
            n == v@.len(),
            v@ == orig,
            out@ == clear_idle(orig.take(i as int)),
            out@.len() <= i,
        decreases n - i,
    {
        let t = v[i];
        proof {
            assert(orig.take(i + 1) =~= orig.take(i as int).push(orig[i as int]));
            orig.take(i as int).lemma_filter_push(orig[i as int], not_idle());
        }
        if !matches!(t, PlayerStateKind::Idle) {
            out.push(t);
        }
        i += 1;
    }
    proof {
        assert(orig.take(n as int) =~= orig);
    }
    *v = out;
}

/// Remove, in place, every tag that releasing the walk key for `dir` ends.
fn remove_walk_end(v: &mut Vec<PlayerStateKind>, dir: MoveDirection)
    ensures
        final(v)@ == walk_end_removal(old(v)@, dir),
        final(v)@.len() <= old(v)@.len(),
{
    let ghost orig = v@;
    let mut out: Vec<PlayerStateKind> = Vec::new();
    let n = v.len();
    let mut i: usize = 0;
    proof {
        assert(orig.take(0) =~= Seq::<PlayerStateKind>::empty());
        assert(walk_end_removal(orig.take(0), dir) =~= Seq::<PlayerStateKind>::empty());
    }
    while i < n
        invariant
            0 <= i <= n,
            n == v@.len(),
            v@ == orig,
            out@ == walk_end_removal(orig.take(i as int), dir),
            out@.len() <= i,
        decreases n - i,
    {
        let t = v[i];
        let keep = match t {
            PlayerStateKind::Idle => false,
            PlayerStateKind::Run(_) => false,
            PlayerStateKind::Walk(vel) => !((vel.x < 0 && matches!(dir, MoveDirection::Left))
                || (vel.x > 0 && matches!(dir, MoveDirection::Right))),
            _ => true,
        };
        proof {
            assert(orig.take(i + 1) =~= orig.take(i as int).push(orig[i as int]));
            orig.take(i as int).lemma_filter_push(orig[i as int], walk_end_keep(dir));
            assert(keep == !removed_on_walk_end(t, dir));
        }
        if keep {
            out.push(t);
        }
        i += 1;
    }
    proof {
        assert(orig.take(n as int) =~= orig);
    }
    *v = out;
}

/// Whether the stack still holds a Walk or Run tag.
fn has_movement_vec(v: &Vec<PlayerStateKind>) -> (b: bool)
    ensures
        b == has_movement(v@),
{
    let n = v.len();
    let mut i: usize = 0;
    while i < n
        invariant
            0 <= i <= n,
            n == v@.len(),
            forall|j: int| 0 <= j < i ==> !((#[trigger] v@[j]) is Walk || v@[j] is Run),
        decreases n - i,
    {
        if matches!(v[i], PlayerStateKind::Walk(_) | PlayerStateKind::Run(_)) {
            proof {
                assert(0 <= i < v@.len() && (v@[i as int] is Walk || v@[i as int] is Run));
            }
            return true;
        }
        i += 1;
    }
    false
}

/// Advance the attack-combo counter for one intent event: an accepted
/// attack (the player is grounded and the capability check passes)
/// increments the counter, wrapping at the number of attack clip variants.
pub fn handle_attack_combo(status: &mut PlayerStatus, state: &PlayerState, grounded: bool)
    requires
        old(status).attack_combo < COMBO_VARIANTS,
    ensures
        final(status).attack_combo == if grounded && spec_can_attack(state@) {
            ((old(status).attack_combo + 1) % (COMBO_VARIANTS as int)) as u8
        } else {
            old(status).attack_combo
        },
        final(status).attack_combo < COMBO_VARIANTS,
        final(status).hp == old(status).hp,
        final(status).points == old(status).points,
        final(status).idle_timer == old(status).idle_timer,
{
    if grounded && state.can_attack() {
        status.attack_combo = (status.attack_combo + 1) % COMBO_VARIANTS;
    }
}

/// Process one intent event against the stack, the combo counter and the
/// physics body, exactly as `step_intent_spec` describes.  Failed guards
/// leave everything unchanged: invalid transitions are policy no-ops.
pub fn step_intent(
    state: &mut PlayerState,
    status: &mut PlayerStatus,
    physics: &mut Physics,
    ev: &PlayerInputs,
)
    requires
        wf_view(view_of(*old(state), *old(status), old(physics).velocity,
            old(physics).on_ground)),
        old(state)@.len() < usize::MAX,
    ensures
        view_of(*final(state), *final(status), final(physics).velocity, final(physics).on_ground)
            == step_intent_spec(
                view_of(*old(state), *old(status), old(physics).velocity,
                    old(physics).on_ground),
                *ev,
            ),
        final(state)@.len() <= old(state)@.len() + 1,
        final(physics).acceleration == old(physics).acceleration,
        final(physics).on_ground == old(physics).on_ground,
        final(status).hp == old(status).hp,
        final(status).points == old(status).points,
        final(status).idle_timer == old(status).idle_timer,
{
    let ghost m0 = view_of(*old(state), *old(status), old(physics).velocity,
        old(physics).on_ground);
    match ev {
        PlayerInputs::Walk(direction) => {
            if physics.on_ground {
                remove_idle(&mut state.0);
                let movement = match direction {
                    MoveDirection::Left => Vec2 { x: -WALK_SPEED, y: 0 },
                    MoveDirection::Right => Vec2 { x: WALK_SPEED, y: 0 },
                };
                state.push_state(PlayerStateKind::Walk(movement));
            }
        },
        PlayerInputs::Run => {
            if physics.on_ground {
                if let PlayerStateKind::Walk(vel) = state.current_state() {
                    proof {
                        assert(valid_tag(top_tag(m0.stack)));
                    }
                    remove_idle(&mut state.0);
                    state.push_state(PlayerStateKind::Run(Vec2 { x: vel.x * 2, y: vel.y }));
                }
            }
        },
        PlayerInputs::Jump => {
            if physics.on_ground {
                let jump_direction = match state.current_state() {
                    PlayerStateKind::Run(vel) | PlayerStateKind::Walk(vel) => vel,
                    _ => Vec2::zero(),
                };
                remove_idle(&mut state.0);
                state.push_state(PlayerStateKind::Jump(
                    Vec2 { x: jump_direction.x, y: JUMP_SPEED },
                ));
            }
        },
        PlayerInputs::Attack => {
            handle_attack_combo(status, state, physics.on_ground);
            if physics.on_ground && state.can_attack() {
                remove_idle(&mut state.0);
                state.push_state(PlayerStateKind::Attack);
            }
        },
        PlayerInputs::WalkEnd(direction) => {
            remove_walk_end(&mut state.0, *direction);
            if physics.on_ground && !has_movement_vec(&state.0) {
                state.push_state(PlayerStateKind::Idle);
                physics.velocity = Vec2::zero();
            } else if state.0.len() == 0 {
                state.push_state(PlayerStateKind::Idle);
            }
        },
        PlayerInputs::RunEnd => {
            if physics.on_ground {
                let n = state.0.len();
                if n > 0 {
                    if let PlayerStateKind::Run(vel) = state.0[n - 1] {
                        proof {
                            assert(valid_tag(m0.stack.last()));
                        }
                        state.0.pop();
                        state.push_state(PlayerStateKind::Walk(Vec2 { x: vel.x / 2, y: vel.y }));
                        physics.velocity = Vec2::zero();
                        proof {
                            assert(final(state)@ =~= m0.stack.update(
                                m0.stack.len() - 1,
                                PlayerStateKind::Walk(Vec2 { x: half(vel.x), y: vel.y }),
                            ));
                        }
                    }
                }
            }
        },
    }
    proof {
        assert(view_of(*final(state), *final(status), final(physics).velocity,
            final(physics).on_ground) =~= step_intent_spec(m0, *ev));
    }
}

/// Process one buffered animation-finished event: pop a transient active
/// tag, refill an emptied stack with Idle and zero the horizontal velocity,
/// and reset the combo counter when the revealed tag is an Attack.
pub fn step_finished(state: &mut PlayerState, status: &mut PlayerStatus, physics: &mut Physics)
    requires
        wf_view(view_of(*old(state), *old(status), old(physics).velocity,
            old(physics).on_ground)),
    ensures
        view_of(*final(state), *final(status), final(physics).velocity, final(physics).on_ground)
            == step_finished_spec(
                view_of(*old(state), *old(status), old(physics).velocity,
                    old(physics).on_ground),
            ),
        final(state)@.len() <= old(state)@.len(),
        final(physics).acceleration == old(physics).acceleration,
        final(physics).on_ground == old(physics).on_ground,
        final(status).hp == old(status).hp,
        final(status).points == old(status).points,
        final(status).idle_timer == old(status).idle_timer,
{
    let ghost m0 = view_of(*old(state), *old(status), old(physics).velocity,
        old(physics).on_ground);
    if matches!(state.current_state(), PlayerStateKind::Attack | PlayerStateKind::Jump(_)) {
        state.0.pop();
        if state.0.len() == 0 {
            state.push_state(PlayerStateKind::Idle);
            physics.velocity.x = 0;
        }
        if matches!(state.current_state(), PlayerStateKind::Attack) {
            status.attack_combo = 0;
        }
    }
    proof {
        assert(view_of(*final(state), *final(status), final(physics).velocity,
            final(physics).on_ground) =~= step_finished_spec(m0));
    }
}

/// Consume one tick's buffered events: every intent event in order, then
/// the animation-finished event if one fired on the previous tick.
pub fn player_movement_state(
    state: &mut PlayerState,
    status: &mut PlayerStatus,
    physics: &mut Physics,
    intents: &Vec<PlayerInputs>,
    finished: bool,
)
    requires
        wf_view(view_of(*old(state), *old(status), old(physics).velocity,
            old(physics).on_ground)),
        old(state)@.len() + intents@.len() < usize::MAX,
    ensures
        view_of(*final(state), *final(status), final(physics).velocity, final(physics).on_ground)
            == machine_step(
                view_of(*old(state), *old(status), old(physics).velocity,
                    old(physics).on_ground),
                intents@,
                finished,
            ),
        wf_view(view_of(*final(state), *final(status), final(physics).velocity,
            final(physics).on_ground)),
        final(physics).acceleration == old(physics).acceleration,
        final(physics).on_ground == old(physics).on_ground,
        final(status).hp == old(status).hp,
        final(status).points == old(status).points,
        final(status).idle_timer == old(status).idle_timer,
{
    let ghost m0 = view_of(*old(state), *old(status), old(physics).velocity,
        old(physics).on_ground);
    let n = intents.len();
    let mut i: usize = 0;
    proof {
        assert(intents@.take(0) =~= Seq::<PlayerInputs>::empty());
    }
    while i < n
        invariant
            0 <= i <= n,
            n == intents@.len(),
            m0.stack.len() + n < usize::MAX,
            state@.len() <= m0.stack.len() + i,
            view_of(*state, *status, physics.velocity, physics.on_ground)
                == run_intents(m0, intents@.take(i as int)),
            wf_view(view_of(*state, *status, physics.velocity, physics.on_ground)),
            physics.acceleration == old(physics).acceleration,
            physics.on_ground == old(physics).on_ground,
            status.hp == old(status).hp,
            status.points == old(status).points,
            status.idle_timer == old(status).idle_timer,
        decreases n - i,
    {
        let ghost m_before = view_of(*state, *status, physics.velocity, physics.on_ground);
        step_intent(state, status, physics, &intents[i]);
        proof {
            lemma_step_intent_wf(m_before, intents@[i as int]);
            lemma_run_intents_snoc(m0, intents@, i as int);
        }
        i += 1;
    }
    proof {
        assert(intents@.take(n as int) =~= intents@);
    }
    if finished {
        let ghost m_before = view_of(*state, *status, physics.velocity, physics.on_ground);
        step_finished(state, status, physics);
        proof {
            lemma_step_finished_wf(m_before);
        }
    }
}

impl Default for PlayerState {
    /// A freshly spawned player idles: the stack starts as [Idle].
    fn default() -> (s: Self)
        ensures
            s@ == seq![PlayerStateKind::Idle],
    {
        let mut v: Vec<PlayerStateKind> = Vec::new();
        v.push(PlayerStateKind::Idle);
        proof {
            assert(v@ =~= seq![PlayerStateKind::Idle]);
        }
        PlayerState(v)
    }
}

} // verus!
