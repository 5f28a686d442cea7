//! Properties of the runner that relate several of its operations.

use vstd::prelude::*;
use crate::event::{EventView, Timestamp, WindowEventView};
use crate::keyboard::{ElementState, KeyEventView, ModifiersState};
use crate::runner::{
    LoopStepView, RunnerModel, character_received, dpi_changed, expects_text,
    key_handled, spec_key_event, spec_step, wakeup_queued, wakeups, with_character,
};
use crate::units::{ScaleFactor, round_div, scales_differ, size_rescaled};
use crate::keyboard::is_scalar_value;

verus! {

/// The key events among a sequence of events, in order.
pub open spec fn key_inputs(s: Seq<EventView>) -> Seq<KeyEventView>
    decreases s.len(),
{
    if s.len() == 0 {
        Seq::empty()
    } else {
        let rest = key_inputs(s.drop_last());
        match s.last() {
            EventView::Window { event: WindowEventView::KeyboardInput { event, .. }, .. } => rest.push(event),
            _ => rest,
        }
    }
}

proof fn lemma_key_inputs_push(s: Seq<EventView>, e: EventView)
    ensures
        key_inputs(s.push(e)) == match e {
            EventView::Window { event: WindowEventView::KeyboardInput { event, .. }, .. } => key_inputs(s).push(event),
            _ => key_inputs(s),
        },
{
    assert(s.push(e).drop_last() =~= s);
}

/// The press event that a key-down leaves once its character was reported: the character's,
/// when the press waited for one and the code is a character, else the key's own.
pub open spec fn resolved_press(down: KeyEventView, modifiers: ModifiersState, code: u32) -> KeyEventView {
    if expects_text(down, modifiers) && is_scalar_value(code) {
        with_character(down, code as char)
    } else {
        down
    }
}

/// A key pressed, its character reported and the key released, with no other signal between and
/// no press held back before, adds exactly two key events: the press, carrying its resolved text,
/// then the release, which carries no text and does not repeat. Nothing is held back afterwards.
pub proof fn lemma_press_character_release(
    m0: RunnerModel,
    m1: RunnerModel,
    m2: RunnerModel,
    m3: RunnerModel,
    virtual_key: i32,
    scan_code: u32,
    down_repeat_count: u32,
    down_modifiers: ModifiersState,
    code: u32,
    up_repeat_count: u32,
    up_modifiers: ModifiersState,
)
    requires
        m0.pending_key is None,
        key_handled(m0, m1, virtual_key, scan_code, down_repeat_count, down_modifiers, ElementState::Pressed),
        character_received(m1, m2, code),
        key_handled(m2, m3, virtual_key, scan_code, up_repeat_count, up_modifiers, ElementState::Released),
    ensures
        ({
            let down = spec_key_event(virtual_key, scan_code, down_repeat_count, down_modifiers, ElementState::Pressed);
            let up = spec_key_event(virtual_key, scan_code, up_repeat_count, up_modifiers, ElementState::Released);
            &&& key_inputs(m3.queue) == key_inputs(m0.queue) + seq![resolved_press(down, down_modifiers, code), up]
            &&& resolved_press(down, down_modifiers, code).state == ElementState::Pressed
            &&& up.state == ElementState::Released
            &&& up.text is None
            &&& !up.repeat
        }),
        m3.pending_key is None,
{
    let down = spec_key_event(virtual_key, scan_code, down_repeat_count, down_modifiers, ElementState::Pressed);
    let up = spec_key_event(virtual_key, scan_code, up_repeat_count, up_modifiers, ElementState::Released);
    let mods_down = crate::event::window_event(WindowEventView::ModifiersChanged(down_modifiers));
    let mods_up = crate::event::window_event(WindowEventView::ModifiersChanged(up_modifiers));
    lemma_key_inputs_push(m0.queue, mods_down);
    let q1 = m0.queue.push(mods_down);
    if expects_text(down, down_modifiers) {
        assert(m1.queue == q1);
        if is_scalar_value(code) {
            let pressed = crate::event::key_input(with_character(down, code as char));
            lemma_key_inputs_push(q1, pressed);
            assert(m2.queue == q1.push(pressed));
            lemma_key_inputs_push(m2.queue, mods_up);
            lemma_key_inputs_push(m2.queue.push(mods_up), crate::event::key_input(up));
            assert(key_inputs(m3.queue) =~= key_inputs(m0.queue) + seq![with_character(down, code as char), up]);
        } else {
            assert(m2 == m1);
            let q2 = m2.queue.push(mods_up);
            lemma_key_inputs_push(m2.queue, mods_up);
            lemma_key_inputs_push(q2, crate::event::key_input(down));
            lemma_key_inputs_push(q2.push(crate::event::key_input(down)), crate::event::key_input(up));
            assert(key_inputs(m3.queue) =~= key_inputs(m0.queue) + seq![down, up]);
        }
    } else {
        let q = q1.push(crate::event::key_input(down));
        lemma_key_inputs_push(q1, crate::event::key_input(down));
        assert(m1.queue == q);
        assert(m2 == m1);
        lemma_key_inputs_push(q, mods_up);
        lemma_key_inputs_push(q.push(mods_up), crate::event::key_input(up));
        assert(key_inputs(m3.queue) =~= key_inputs(m0.queue) + seq![down, up]);
    }
}

/// Two key-downs in a row, with no character or key-up between and no press held back before:
/// the first press is queued before anything of the second, which is then held back or queued.
pub proof fn lemma_second_press_flushes_first(
    m0: RunnerModel,
    m1: RunnerModel,
    m2: RunnerModel,
    first_key: i32,
    first_scan_code: u32,
    first_repeat_count: u32,
    first_modifiers: ModifiersState,
    second_key: i32,
    second_scan_code: u32,
    second_repeat_count: u32,
    second_modifiers: ModifiersState,
)
    requires
        m0.pending_key is None,
        key_handled(m0, m1, first_key, first_scan_code, first_repeat_count, first_modifiers, ElementState::Pressed),
        key_handled(m1, m2, second_key, second_scan_code, second_repeat_count, second_modifiers, ElementState::Pressed),
    ensures
        ({
            let first = spec_key_event(first_key, first_scan_code, first_repeat_count, first_modifiers, ElementState::Pressed);
            let second = spec_key_event(second_key, second_scan_code, second_repeat_count, second_modifiers, ElementState::Pressed);
            if expects_text(second, second_modifiers) {
                &&& key_inputs(m2.queue) == key_inputs(m0.queue).push(first)
                &&& m2.pending_key == Some(((second_scan_code % 0x1_0000) as u16, second))
            } else {
                &&& key_inputs(m2.queue) == key_inputs(m0.queue).push(first).push(second)
                &&& m2.pending_key is None
            }
        }),
{
    let first = spec_key_event(first_key, first_scan_code, first_repeat_count, first_modifiers, ElementState::Pressed);
    let second = spec_key_event(second_key, second_scan_code, second_repeat_count, second_modifiers, ElementState::Pressed);
    let mods1 = crate::event::window_event(WindowEventView::ModifiersChanged(first_modifiers));
    let mods2 = crate::event::window_event(WindowEventView::ModifiersChanged(second_modifiers));
    lemma_key_inputs_push(m0.queue, mods1);
    let q1 = m0.queue.push(mods1);
    if expects_text(first, first_modifiers) {
        assert(m1.queue == q1);
        lemma_key_inputs_push(m1.queue, mods2);
        lemma_key_inputs_push(m1.queue.push(mods2), crate::event::key_input(first));
        let q2 = m1.queue.push(mods2).push(crate::event::key_input(first));
        lemma_key_inputs_push(q2, crate::event::key_input(second));
    } else {
        lemma_key_inputs_push(q1, crate::event::key_input(first));
        assert(m1.pending_key is None);
        lemma_key_inputs_push(m1.queue, mods2);
        lemma_key_inputs_push(m1.queue.push(mods2), crate::event::key_input(second));
    }
}

/// A wake-up requested twice before the first is dispatched leaves exactly one wake-up to
/// dispatch, and the second request queues nothing.
pub proof fn lemma_wakeup_requests_coalesce(m0: RunnerModel, m1: RunnerModel, m2: RunnerModel)
    requires
        m0.inv(),
        wakeup_queued(m0, m1),
        wakeup_queued(m1, m2),
    ensures
        wakeups(m2.batch + m2.queue) == 1,
        m2.queue == m1.queue,
        m2.wakeup_pending,
{
    if !m0.wakeup_pending {
        assert(m1.batch + m1.queue =~= (m0.batch + m0.queue).push(EventView::WakeUp));
        crate::runner::lemma_wakeups_concat(m0.batch + m0.queue, seq![EventView::WakeUp]);
        crate::runner::lemma_wakeups_single(EventView::WakeUp);
        assert((m0.batch + m0.queue).push(EventView::WakeUp) =~= (m0.batch + m0.queue) + seq![EventView::WakeUp]);
    }
}

/// A scale factor within the tolerance of the current one changes nothing and queues nothing.
pub proof fn lemma_small_scale_change_ignored(m: RunnerModel, scale_factor: ScaleFactor)
    requires
        !scales_differ(m.scale_factor, scale_factor),
    ensures
        dpi_changed(m, scale_factor) == m,
{
}

/// A scale factor beyond the tolerance queues one `ScaleFactorChanged` event, and the surface keeps
/// its logical size: its pixel size is the old one taken to logical units at the old factor and
/// back to pixels at the new one.
pub proof fn lemma_scale_change_rescales(m: RunnerModel, scale_factor: ScaleFactor)
    requires
        scales_differ(m.scale_factor, scale_factor),
    ensures
        dpi_changed(m, scale_factor).scale_factor == scale_factor,
        dpi_changed(m, scale_factor).surface_size == size_rescaled(m.surface_size, m.scale_factor, scale_factor),
        dpi_changed(m, scale_factor).queue == m.queue.push(crate::event::window_event(
            WindowEventView::ScaleFactorChanged {
                scale_factor,
                surface_size: size_rescaled(m.surface_size, m.scale_factor, scale_factor),
            },
        )),
{
}

/// `round_div(n, d)` is an integer nearest to `n / d`.
pub proof fn lemma_round_div_nearest(n: nat, d: nat)
    requires
        d > 0,
    ensures
        2 * (round_div(n, d) * d - n) <= d,
        2 * (n - round_div(n, d) * d) <= d,
{
    let q = n / d;
    let rem = n % d;
    vstd::arithmetic::div_mod::lemma_fundamental_div_mod(n as int, d as int);
    let r = round_div(n, d);
    if 2 * rem >= d {
        assert(r == q + 1);
        assert(r * d == q * d + d) by (nonlinear_arith)
            requires
                r == q + 1,
        ;
    } else {
        assert(r == q);
    }
}

/// A scale factor beyond the tolerance gives the surface the pixel size that keeps its logical
/// size: each side, taken to logical units at the old factor and back to pixels at the new one,
/// is rounded to a nearest pixel (`round(side * new / old)`, halves up), wherever that fits in
/// a `u32`.
pub proof fn lemma_scale_change_keeps_logical_size(m: RunnerModel, scale_factor: ScaleFactor)
    requires
        m.scale_factor.is_valid(),
        scales_differ(m.scale_factor, scale_factor),
        round_div(m.surface_size.width as nat * scale_factor.nanos as nat, m.scale_factor.nanos as nat) <= u32::MAX,
        round_div(m.surface_size.height as nat * scale_factor.nanos as nat, m.scale_factor.nanos as nat) <= u32::MAX,
    ensures
        ({
            let size = dpi_changed(m, scale_factor).surface_size;
            let (w, h) = (m.surface_size.width as int, m.surface_size.height as int);
            let (old, new) = (m.scale_factor.nanos as int, scale_factor.nanos as int);
            &&& size.width == round_div((w * new) as nat, old as nat)
            &&& size.height == round_div((h * new) as nat, old as nat)
            &&& 2 * (size.width * old - w * new) <= old
            &&& 2 * (w * new - size.width * old) <= old
            &&& 2 * (size.height * old - h * new) <= old
            &&& 2 * (h * new - size.height * old) <= old
        }),
{
    lemma_round_div_nearest(m.surface_size.width as nat * scale_factor.nanos as nat, m.scale_factor.nanos as nat);
    lemma_round_div_nearest(m.surface_size.height as nat * scale_factor.nanos as nat, m.scale_factor.nanos as nat);
}

/// Whether an action announces a new iteration.
pub open spec fn starts_iteration(action: Option<LoopStepView>) -> bool {
    action matches Some(LoopStepView::NewEvents { .. })
}

/// One link of a trace of the runner: a loop step taken at `now` with its action, or, with no
/// action, a change made outside the loop (a callback, a native signal, the surface size chosen
/// after a scale-factor change) that leaves the batch alone, never withdraws a request to exit,
/// and leaves the phase alone but for ending a `Resizing` phase.
pub open spec fn trace_link(pre: RunnerModel, post: RunnerModel, action: Option<LoopStepView>, now: Timestamp) -> bool {
    match action {
        Some(a) => spec_step(pre, now) == (post, a),
        None => {
            &&& post.phase == pre.phase || (pre.phase is Resizing && post.phase is Dispatching)
            &&& post.batch == pre.batch
            &&& pre.exit_requested ==> post.exit_requested
        },
    }
}

/// `states` is a trace of the runner linked by `actions` at the times `nows`.
pub open spec fn is_trace(states: Seq<RunnerModel>, actions: Seq<Option<LoopStepView>>, nows: Seq<Timestamp>) -> bool {
    &&& states.len() == actions.len() + 1
    &&& nows.len() == actions.len()
    &&& forall|i: int| 0 <= i < actions.len() ==> #[trigger] trace_link(states[i], states[i + 1], actions[i], nows[i])
}

proof fn lemma_exit_kept(states: Seq<RunnerModel>, actions: Seq<Option<LoopStepView>>, nows: Seq<Timestamp>, k: int)
    requires
        is_trace(states, actions, nows),
        states[0].exit_requested,
        0 <= k < states.len(),
    ensures
        states[k].exit_requested,
    decreases k,
{
    if k > 0 {
        let j = k - 1;
        lemma_exit_kept(states, actions, nows, j);
        assert(trace_link(states[j], states[j + 1], actions[j], nows[j]));
    }
}

proof fn lemma_no_iteration_from(states: Seq<RunnerModel>, actions: Seq<Option<LoopStepView>>, nows: Seq<Timestamp>, k: int)
    requires
        is_trace(states, actions, nows),
        0 <= k <= actions.len(),
        states[k].exit_requested,
        !(states[k].phase is NewEvents),
    ensures
        forall|i: int| k <= i < actions.len() ==> !starts_iteration(#[trigger] actions[i]),
    decreases actions.len() - k,
{
    if k < actions.len() {
        assert(trace_link(states[k], states[k + 1], actions[k], nows[k]));
        lemma_no_iteration_from(states, actions, nows, k + 1);
    }
}

/// Once exit is requested, the loop begins at most one more iteration, and none at all when the
/// request comes within an iteration (during the dispatch, for instance): the current iteration
/// ends and the loop stops.
pub proof fn lemma_exit_ends_loop(states: Seq<RunnerModel>, actions: Seq<Option<LoopStepView>>, nows: Seq<Timestamp>)
    requires
        is_trace(states, actions, nows),
        states[0].exit_requested,
    ensures
        !(states[0].phase is NewEvents) ==> forall|i: int| 0 <= i < actions.len() ==> !starts_iteration(#[trigger] actions[i]),
        forall|i: int, j: int| 0 <= i < j < actions.len() && starts_iteration(#[trigger] actions[i]) ==> !starts_iteration(#[trigger] actions[j]),
{
    if !(states[0].phase is NewEvents) {
        lemma_no_iteration_from(states, actions, nows, 0);
    }
    assert forall|i: int, j: int| 0 <= i < j < actions.len() && starts_iteration(#[trigger] actions[i]) implies !starts_iteration(#[trigger] actions[j]) by {
        lemma_exit_kept(states, actions, nows, i);
        assert(trace_link(states[i], states[i + 1], actions[i], nows[i]));
        lemma_no_iteration_from(states, actions, nows, i + 1);
    }
}

} // verus!
