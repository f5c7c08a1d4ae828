//! The laws of the state stack machine, proved once and for all event
//! sequences: the stack never empties, Idle stays unique, a Run intent
//! without a Walk beneath it changes nothing, a Jump carries the active
//! Walk's horizontal velocity, the combo counter wraps, and a finished
//! event pops exactly one transient layer.

use vstd::prelude::*;
use crate::state::{
    PlayerInputs, PlayerStateKind, StateView, Vec2, clear_idle, half, idle_count, is_idle_tag,
    machine_step, not_idle, removed_on_walk_end, run_intents, spec_can_attack, spec_walk_velocity,
    step_finished_spec, step_intent_spec, top_tag, valid_tag, valid_tags, walk_end_keep,
    walk_end_removal, wf_stack, wf_view,
};

verus! {

/// Filtering keeps only tags the stack already held, so machine-made
/// payloads stay machine-made.
pub proof fn lemma_valid_tags_filter(s: Seq<PlayerStateKind>, pred: spec_fn(PlayerStateKind) -> bool)
    requires
        valid_tags(s),
    ensures
        valid_tags(s.filter(pred)),
    decreases s.len(),
{
    if s.len() == 0 {
        s.lemma_filter_len(pred);
        assert(s.filter(pred) =~= Seq::<PlayerStateKind>::empty());
    } else {
        let rest = s.drop_last();
        assert(valid_tags(rest)) by {
            assert(forall|i: int| 0 <= i < rest.len() ==> rest[i] == s[i]);
        }
        lemma_valid_tags_filter(rest, pred);
        assert(s =~= rest.push(s.last()));
        rest.lemma_filter_push(s.last(), pred);
        assert(valid_tag(s.last()));
        let f = s.filter(pred);
        let fr = rest.filter(pred);
        assert forall|i: int| 0 <= i < f.len() implies valid_tag(#[trigger] f[i]) by {
            if pred(s.last()) {
                assert(f == fr.push(s.last()));
                if i < f.len() - 1 {
                    assert(f[i] == fr[i]);
                }
            } else {
                assert(f == fr);
            }
        }
    }
}

/// A filter whose predicate rejects Idle leaves no Idle tag behind.
pub proof fn lemma_idle_count_zero_filter(
    s: Seq<PlayerStateKind>,
    pred: spec_fn(PlayerStateKind) -> bool,
)
    requires
        forall|t: PlayerStateKind| #[trigger] pred(t) ==> !(t is Idle),
    ensures
        idle_count(s.filter(pred)) == 0,
    decreases s.len(),
{
    if s.len() == 0 {
        s.lemma_filter_len(pred);
        assert(s.filter(pred) =~= Seq::<PlayerStateKind>::empty());
        Seq::<PlayerStateKind>::empty().lemma_filter_len(is_idle_tag());
    } else {
        let rest = s.drop_last();
        lemma_idle_count_zero_filter(rest, pred);
        assert(s =~= rest.push(s.last()));
        rest.lemma_filter_push(s.last(), pred);
        if pred(s.last()) {
            assert(!(s.last() is Idle));
            lemma_idle_count_push(rest.filter(pred), s.last());
        }
    }
}

/// Pushing a tag adds one to the Idle count exactly when the tag is Idle.
pub proof fn lemma_idle_count_push(s: Seq<PlayerStateKind>, t: PlayerStateKind)
    ensures
        idle_count(s.push(t)) == idle_count(s) + if t is Idle { 1int } else { 0int },
{
    s.lemma_filter_push(t, is_idle_tag());
}

/// One intent event preserves the machine invariants — in particular the
/// stack stays non-empty and holds at most one Idle tag — and never touches
/// the grounded flag.
pub proof fn lemma_step_intent_wf(m: StateView, ev: PlayerInputs)
    requires
        wf_view(m),
    ensures
        wf_view(step_intent_spec(m, ev)),
        step_intent_spec(m, ev).stack.len() > 0,
        idle_count(step_intent_spec(m, ev).stack) <= 1,
        step_intent_spec(m, ev).grounded == m.grounded,
        step_intent_spec(m, ev).velocity == m.velocity
            || step_intent_spec(m, ev).velocity == Vec2::spec_zero(),
    decreases 0int,
{
    let cleared = clear_idle(m.stack);
    lemma_valid_tags_filter(m.stack, not_idle());
    lemma_idle_count_zero_filter(m.stack, not_idle());
    match ev {
        PlayerInputs::Walk(dir) => {
            if m.grounded {
                lemma_idle_count_push(cleared, PlayerStateKind::Walk(spec_walk_velocity(dir)));
            }
        },
        PlayerInputs::Run => {
            if m.grounded && top_tag(m.stack) is Walk {
                let v = top_tag(m.stack)->Walk_0;
                assert(valid_tag(m.stack.last()));
                lemma_idle_count_push(
                    cleared,
                    PlayerStateKind::Run(Vec2 { x: (2 * v.x) as i64, y: v.y }),
                );
            }
        },
        PlayerInputs::Jump => {
            if m.grounded {
                let carry = match top_tag(m.stack) {
                    PlayerStateKind::Walk(v) => v.x,
                    PlayerStateKind::Run(v) => v.x,
                    _ => 0,
                };
                if m.stack.len() > 0 {
                    assert(valid_tag(m.stack.last()));
                }
                lemma_idle_count_push(cleared, PlayerStateKind::Jump(
                    Vec2 { x: carry, y: crate::JUMP_SPEED },
                ));
            }
        },
        PlayerInputs::Attack => {
            if m.grounded && spec_can_attack(m.stack) {
                lemma_idle_count_push(cleared, PlayerStateKind::Attack);
            }
        },
        PlayerInputs::WalkEnd(dir) => {
            let s1 = walk_end_removal(m.stack, dir);
            lemma_valid_tags_filter(m.stack, walk_end_keep(dir));
            lemma_idle_count_zero_filter(m.stack, walk_end_keep(dir));
            lemma_idle_count_push(s1, PlayerStateKind::Idle);
        },
        PlayerInputs::RunEnd => {
            if m.grounded && top_tag(m.stack) is Run {
                let v = top_tag(m.stack)->Run_0;
                assert(valid_tag(m.stack.last()));
                let replaced = PlayerStateKind::Walk(Vec2 { x: half(v.x), y: v.y });
                let s1 = m.stack.update(m.stack.len() - 1, replaced);
                assert(s1 =~= m.stack.drop_last().push(replaced));
                assert(m.stack =~= m.stack.drop_last().push(m.stack.last()));
                lemma_idle_count_push(m.stack.drop_last(), m.stack.last());
                lemma_idle_count_push(m.stack.drop_last(), replaced);
                assert(valid_tags(s1)) by {
                    assert(forall|i: int| 0 <= i < s1.len() - 1 ==> s1[i] == m.stack[i]);
                }
            }
        },
    }
}

/// One animation-finished event preserves the machine invariants and never
/// touches the grounded flag.
pub proof fn lemma_step_finished_wf(m: StateView)
    requires
        wf_view(m),
    ensures
        wf_view(step_finished_spec(m)),
        step_finished_spec(m).stack.len() > 0,
        idle_count(step_finished_spec(m).stack) <= 1,
        step_finished_spec(m).grounded == m.grounded,
        step_finished_spec(m).velocity == m.velocity
            || step_finished_spec(m).velocity == (Vec2 { x: 0, y: m.velocity.y }),
{
    if top_tag(m.stack) is Attack || top_tag(m.stack) is Jump {
        let popped = m.stack.drop_last();
        assert(m.stack =~= popped.push(m.stack.last()));
        lemma_idle_count_push(popped, m.stack.last());
        assert(valid_tags(popped)) by {
            assert(forall|i: int| 0 <= i < popped.len() ==> popped[i] == m.stack[i]);
        }
        if popped.len() == 0 {
            assert(popped.filter(is_idle_tag()) =~= Seq::<PlayerStateKind>::empty());
            lemma_idle_count_push(popped, PlayerStateKind::Idle);
        }
    }
}

/// A whole sequence of intent events preserves the machine invariants: the
/// stack stays non-empty with at most one Idle tag after every step.
pub proof fn lemma_run_intents_wf(m: StateView, evs: Seq<PlayerInputs>)
    requires
        wf_view(m),
    ensures
        wf_view(run_intents(m, evs)),
        run_intents(m, evs).stack.len() > 0,
        idle_count(run_intents(m, evs).stack) <= 1,
        run_intents(m, evs).grounded == m.grounded,
        run_intents(m, evs).velocity.x == m.velocity.x || run_intents(m, evs).velocity.x == 0,
        run_intents(m, evs).velocity.y == m.velocity.y || run_intents(m, evs).velocity.y == 0,
    decreases evs.len(),
{
    if evs.len() > 0 {
        lemma_step_intent_wf(m, evs[0]);
        lemma_run_intents_wf(step_intent_spec(m, evs[0]), evs.skip(1));
    }
}

/// One tick's worth of events — any intent sequence, then an optional
/// finished event — preserves the machine invariants.  In particular the
/// state stack is non-empty after each processing step, and at most one
/// Idle tag ever exists.
pub proof fn lemma_machine_step_wf(m: StateView, evs: Seq<PlayerInputs>, finished: bool)
    requires
        wf_view(m),
    ensures
        wf_view(machine_step(m, evs, finished)),
        machine_step(m, evs, finished).stack.len() > 0,
        idle_count(machine_step(m, evs, finished).stack) <= 1,
        machine_step(m, evs, finished).grounded == m.grounded,
        machine_step(m, evs, finished).velocity.x == m.velocity.x
            || machine_step(m, evs, finished).velocity.x == 0,
        machine_step(m, evs, finished).velocity.y == m.velocity.y
            || machine_step(m, evs, finished).velocity.y == 0,
{
    lemma_run_intents_wf(m, evs);
    if finished {
        lemma_step_finished_wf(run_intents(m, evs));
    }
}

/// The machine after an arbitrary interleaving of intent events (`Some`)
/// and animation-finished events (`None`), in order.
pub open spec fn run_events(m: StateView, evs: Seq<Option<PlayerInputs>>) -> StateView
    decreases evs.len(),
{
    if evs.len() == 0 {
        m
    } else {
        let m1 = match evs[0] {
            Some(ev) => step_intent_spec(m, ev),
            None => step_finished_spec(m),
        };
        run_events(m1, evs.skip(1))
    }
}

/// Every interleaving of intent and finished events preserves the machine
/// invariants.  Applied to each prefix of a sequence, this says the state
/// stack is non-empty and holds at most one Idle tag after every single
/// processing step.
pub proof fn lemma_run_events_wf(m: StateView, evs: Seq<Option<PlayerInputs>>)
    requires
        wf_view(m),
    ensures
        wf_view(run_events(m, evs)),
        run_events(m, evs).stack.len() > 0,
        idle_count(run_events(m, evs).stack) <= 1,
        run_events(m, evs).grounded == m.grounded,
    decreases evs.len(),
{
    if evs.len() > 0 {
        let m1 = match evs[0] {
            Some(ev) => step_intent_spec(m, ev),
            None => step_finished_spec(m),
        };
        match evs[0] {
            Some(ev) => lemma_step_intent_wf(m, ev),
            None => lemma_step_finished_wf(m),
        }
        lemma_run_events_wf(m1, evs.skip(1));
    }
}

/// A Run intent with no active Walk tag, or while airborne, changes
/// nothing: not the stack, not the combo counter, not the velocity.
pub proof fn lemma_run_requires_walk(m: StateView)
    requires
        wf_view(m),
        !(m.grounded && top_tag(m.stack) is Walk),
    ensures
        step_intent_spec(m, PlayerInputs::Run) == m,
{
}

/// A Jump intent while the active tag is Walk pushes a Jump tag whose
/// horizontal component equals the Walk velocity's horizontal component.
pub proof fn lemma_jump_carries_walk_velocity(m: StateView)
    requires
        wf_view(m),
        m.grounded,
        top_tag(m.stack) is Walk,
    ensures
        ({
            let s1 = step_intent_spec(m, PlayerInputs::Jump).stack;
            &&& s1.len() > 0
            &&& s1.last() == PlayerStateKind::Jump(
                Vec2 { x: top_tag(m.stack)->Walk_0.x, y: crate::JUMP_SPEED },
            )
        }),
{
}

/// Every accepted Attack intent advances the combo counter by one, wrapping
/// at the number of attack clip variants; a rejected one leaves it alone.
pub proof fn lemma_combo_increments_on_attack(m: StateView)
    requires
        wf_view(m),
    ensures
        step_intent_spec(m, PlayerInputs::Attack).combo == if m.grounded
            && spec_can_attack(m.stack) {
            (m.combo + 1) % (crate::COMBO_VARIANTS as int)
        } else {
            m.combo as int
        },
{
}

/// Three consecutive accepted Attack intents from a fresh Idle state — each
/// after the prior attack's finished event — take the combo counter through
/// 1, 2 and back to 0: the counter wraps modulo the number of attack clip
/// variants, and the interleaved finished events do not reset it, because
/// each pop reveals Idle, not another Attack.
pub proof fn lemma_combo_wraps_from_idle(m: StateView)
    requires
        wf_view(m),
        m.grounded,
        m.stack == seq![PlayerStateKind::Idle],
        m.combo == 0,
    ensures
        ({
            let m1 = step_intent_spec(m, PlayerInputs::Attack);
            let m2 = step_finished_spec(m1);
            let m3 = step_intent_spec(m2, PlayerInputs::Attack);
            let m4 = step_finished_spec(m3);
            let m5 = step_intent_spec(m4, PlayerInputs::Attack);
            &&& m1.combo == 1
            &&& m3.combo == 2
            &&& m5.combo == 0
        }),
{
    lemma_clear_idle_of_lone_idle();
    let m1 = step_intent_spec(m, PlayerInputs::Attack);
    assert(m1.stack =~= seq![PlayerStateKind::Attack]);
    let m2 = step_finished_spec(m1);
    assert(m1.stack.drop_last() =~= Seq::<PlayerStateKind>::empty());
    assert(m2.stack =~= seq![PlayerStateKind::Idle]);
    assert(m2.combo == 1);
    let m3 = step_intent_spec(m2, PlayerInputs::Attack);
    assert(m3.stack =~= seq![PlayerStateKind::Attack]);
    assert(m3.combo == 2);
    let m4 = step_finished_spec(m3);
    assert(m4.stack =~= seq![PlayerStateKind::Idle]);
    assert(m4.combo == 2);
    let m5 = step_intent_spec(m4, PlayerInputs::Attack);
    assert(m5.combo == 0);
}

/// Clearing Idle from the one-tag stack [Idle] leaves the empty stack.
proof fn lemma_clear_idle_of_lone_idle()
    ensures
        clear_idle(seq![PlayerStateKind::Idle]) =~= Seq::<PlayerStateKind>::empty(),
{
    let s = seq![PlayerStateKind::Idle];
    assert(s =~= Seq::<PlayerStateKind>::empty().push(PlayerStateKind::Idle));
    Seq::<PlayerStateKind>::empty().lemma_filter_push(PlayerStateKind::Idle, not_idle());
    Seq::<PlayerStateKind>::empty().lemma_filter_len(not_idle());
    assert(Seq::<PlayerStateKind>::empty().filter(not_idle())
        =~= Seq::<PlayerStateKind>::empty());
}

/// An animation-finished event pops exactly one transient layer: with a
/// transient active tag above at least one other tag, exactly the top is
/// removed; with a non-transient active tag, nothing changes at all.
pub proof fn lemma_finished_pops_one_layer(m: StateView)
    requires
        wf_view(m),
    ensures
        (top_tag(m.stack) is Attack || top_tag(m.stack) is Jump) && m.stack.len() >= 2
            ==> step_finished_spec(m).stack == m.stack.drop_last(),
        !(top_tag(m.stack) is Attack || top_tag(m.stack) is Jump)
            ==> step_finished_spec(m) == m,
{
}

/// Running one more intent event is one more step: the fold over
/// `take(i + 1)` is the step applied to the fold over `take(i)`.
pub proof fn lemma_run_intents_snoc(m: StateView, evs: Seq<PlayerInputs>, i: int)
    requires
        0 <= i < evs.len(),
    ensures
        run_intents(m, evs.take(i + 1))
            == step_intent_spec(run_intents(m, evs.take(i)), evs[i]),
    decreases i,
{
    if i == 0 {
        assert(evs.take(1)[0] == evs[0]);
        assert(evs.take(1).skip(1) =~= Seq::<PlayerInputs>::empty());
        assert(evs.take(0) =~= Seq::<PlayerInputs>::empty());
        assert(run_intents(step_intent_spec(m, evs[0]), Seq::<PlayerInputs>::empty())
            == step_intent_spec(m, evs[0]));
        assert(run_intents(m, evs.take(0)) == m);
    } else {
        let m1 = step_intent_spec(m, evs[0]);
        let tail = evs.skip(1);
        assert(evs.take(i + 1)[0] == evs[0]);
        assert(evs.take(i + 1).skip(1) =~= tail.take(i));
        assert(evs.take(i)[0] == evs[0]);
        assert(evs.take(i).skip(1) =~= tail.take(i - 1));
        lemma_run_intents_snoc(m1, tail, i - 1);
        assert(tail[i - 1] == evs[i]);
    }
}

} // verus!
