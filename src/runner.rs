//! The runner: the state that the native callbacks and the application share, the conversion
//! of native signals into queued events, and the decisions of the dispatch loop.
//!
//! The host keeps one runner behind a lock, never held across a native call or an application
//! callback. Native callbacks hand it plain values; the loop asks it, step by step, what to do next.

use vstd::prelude::*;
use std::collections::VecDeque;
use crate::event::{
    ControlFlow, Event, EventView, StartCause, Timestamp, WindowEvent, WindowEventView, WindowId,
    GLOBAL_WINDOW, key_input, next_start_cause, spec_next_start_cause, window_event,
};
use crate::keyboard::{
    ElementState, Key, KeyEvent, KeyEventView, KeyLocation, KeyView, ModifierKeyStates,
    ModifiersState, NativeKeyCode, PhysicalKey, char_from_u32, char_to_string, is_scalar_value,
    map_key, modifiers_from_key_states, spec_map_key, spec_map_key_text, spec_modifiers,
};
use crate::pointer::{
    PointerPoint, TouchPhase, button_source_from_point, pointer_details, spec_button_source,
    spec_pointer_details, spec_wheel_delta, wheel_delta,
};
use crate::units::{
    LogicalSize, PhysicalSize, ScaleFactor, rescale_size, scale_changed, scales_differ,
    size_rescaled, size_to_physical, to_physical_size,
};

verus! {

/// Where the loop stands within an iteration.
#[derive(Debug, Clone, Copy, PartialEq, Eq, Hash, Structural)]
pub enum LoopPhase {
    /// The next step announces a new iteration with this cause.
    NewEvents(StartCause),
    /// The next step pumps the native events.
    Pump,
    /// The next step takes the queued events as the batch to dispatch.
    Swap,
    /// The next step dispatches the next event of the batch, or ends the batch.
    Dispatching,
    /// A `ScaleFactorChanged` event was just dispatched: the host reports the surface size that
    /// the application chose, then the next step goes on as in `Dispatching`.
    Resizing,
    /// The next step ends the iteration.
    Finish,
    /// The loop has ended.
    Exited,
}

/// How to pump the native events.
#[derive(Debug, Clone, Copy, PartialEq, Eq, Hash, Structural)]
pub enum PumpMode {
    /// Process the native events that are pending, without blocking.
    ProcessAllIfPresent,
    /// Block until a native event arrives, then process it and the pending ones.
    ProcessOneAndAllPending,
    /// Sleep this many nanoseconds, then process the pending native events without blocking.
    SleepThenProcessAll { nanos: u64 },
}

/// What the host does next.
#[derive(Debug, Clone, PartialEq, Eq, Hash)]
pub enum LoopStep {
    /// Tell the application that an iteration begins; on `StartCause::Init` also that it may
    /// create its surfaces.
    NewEvents { cause: StartCause },
    /// Pump the native events; the native callbacks queue what they bring.
    PumpEvents(PumpMode),
    /// Hand this event to the application; after a `ScaleFactorChanged` event, report the surface
    /// size it chose with `commit_surface_size`.
    Dispatch(Event),
    /// Tell the application that the loop is about to wait.
    AboutToWait,
    /// The loop ends: release the application.
    Exit,
}

/// A [`LoopStep`] with its event seen through its view.
pub enum LoopStepView {
    NewEvents { cause: StartCause },
    PumpEvents(PumpMode),
    Dispatch(EventView),
    AboutToWait,
    Exit,
}

impl View for LoopStep {
    type V = LoopStepView;

    open spec fn view(&self) -> LoopStepView {
        match *self {
            LoopStep::NewEvents { cause } => LoopStepView::NewEvents { cause },
            LoopStep::PumpEvents(m) => LoopStepView::PumpEvents(m),
            LoopStep::Dispatch(e) => LoopStepView::Dispatch(e@),
            LoopStep::AboutToWait => LoopStepView::AboutToWait,
            LoopStep::Exit => LoopStepView::Exit,
        }
    }
}

/// A key press held back until the character it types is known.
pub struct PendingKeyDown {
    pub scancode: u16,
    pub event: KeyEvent,
}

/// The state of the runner.
pub struct Runner {
    control_flow: ControlFlow,
    exit_requested: bool,
    queue: VecDeque<Event>,
    batch: VecDeque<Event>,
    surface_size: PhysicalSize,
    scale_factor: ScaleFactor,
    has_focus: bool,
    window_created: bool,
    wakeup_pending: bool,
    pending_key: Option<PendingKeyDown>,
    phase: LoopPhase,
}

/// The runner as a mathematical value.
pub struct RunnerModel {
    pub control_flow: ControlFlow,
    /// Set by `exit`, never cleared.
    pub exit_requested: bool,
    /// Events queued for the next batch, oldest first.
    pub queue: Seq<EventView>,
    /// The batch being dispatched, next first.
    pub batch: Seq<EventView>,
    pub surface_size: PhysicalSize,
    pub scale_factor: ScaleFactor,
    pub has_focus: bool,
    pub window_created: bool,
    /// A wake-up is queued or in the batch and not yet dispatched.
    pub wakeup_pending: bool,
    /// The held-back key press and its scancode.
    pub pending_key: Option<(u16, KeyEventView)>,
    pub phase: LoopPhase,
}

/// The number of wake-ups in a sequence of events.
pub open spec fn wakeups(s: Seq<EventView>) -> nat
    decreases s.len(),
{
    if s.len() == 0 {
        0
    } else {
        wakeups(s.drop_last()) + if s.last() is WakeUp { 1nat } else { 0nat }
    }
}

pub proof fn lemma_wakeups_concat(a: Seq<EventView>, b: Seq<EventView>)
    ensures
        wakeups(a + b) == wakeups(a) + wakeups(b),
    decreases b.len(),
{
    if b.len() == 0 {
        assert(a + b =~= a);
    } else {
        assert((a + b).drop_last() =~= a + b.drop_last());
        lemma_wakeups_concat(a, b.drop_last());
    }
}

pub proof fn lemma_wakeups_single(e: EventView)
    ensures
        wakeups(seq![e]) == if e is WakeUp { 1nat } else { 0nat },
{
    assert(seq![e].drop_last() =~= Seq::<EventView>::empty());
    assert(wakeups(Seq::<EventView>::empty()) == 0);
    assert(seq![e].last() == e);
}

pub proof fn lemma_wakeups_first(s: Seq<EventView>)
    requires
        s.len() > 0,
    ensures
        wakeups(s) == wakeups(s.subrange(1, s.len() as int)) + if s[0] is WakeUp { 1nat } else { 0nat },
{
    assert(s =~= seq![s[0]] + s.subrange(1, s.len() as int));
    lemma_wakeups_concat(seq![s[0]], s.subrange(1, s.len() as int));
    lemma_wakeups_single(s[0]);
}

impl RunnerModel {
    /// The runner's invariant: a usable scale factor, and a wake-up is pending exactly when one
    /// event of the batch and the queue is a wake-up.
    pub open spec fn inv(self) -> bool {
        &&& self.scale_factor.is_valid()
        &&& wakeups(self.batch + self.queue) == if self.wakeup_pending { 1nat } else { 0nat }
    }

    /// The runner when an event loop is created.
    pub open spec fn initial() -> RunnerModel {
        RunnerModel {
            control_flow: ControlFlow::Wait,
            exit_requested: false,
            queue: Seq::empty(),
            batch: Seq::empty(),
            surface_size: PhysicalSize { width: 0, height: 0 },
            scale_factor: ScaleFactor { nanos: crate::units::SCALE_ONE },
            has_focus: false,
            window_created: false,
            wakeup_pending: false,
            pending_key: None,
            phase: LoopPhase::NewEvents(StartCause::Init),
        }
    }

    /// This model with one more window event queued.
    pub open spec fn queued(self, event: WindowEventView) -> RunnerModel {
        RunnerModel { queue: self.queue.push(window_event(event)), ..self }
    }
}

impl View for Runner {
    type V = RunnerModel;

    closed spec fn view(&self) -> RunnerModel {
        RunnerModel {
            control_flow: self.control_flow,
            exit_requested: self.exit_requested,
            queue: self.queue@.map_values(|e: Event| e@),
            batch: self.batch@.map_values(|e: Event| e@),
            surface_size: self.surface_size,
            scale_factor: self.scale_factor,
            has_focus: self.has_focus,
            window_created: self.window_created,
            wakeup_pending: self.wakeup_pending,
            pending_key: match self.pending_key {
                Some(p) => Some((p.scancode, p.event@)),
                None => None,
            },
            phase: self.phase,
        }
    }
}

impl Runner {
    /// A runner for a new event loop.
    pub fn new() -> (r: Runner)
        ensures
            r@ == RunnerModel::initial(),
            r@.inv(),
    {
        let r = Runner {
            control_flow: ControlFlow::Wait,
            exit_requested: false,
            queue: VecDeque::new(),
            batch: VecDeque::new(),
            surface_size: PhysicalSize { width: 0, height: 0 },
            scale_factor: ScaleFactor::one(),
            has_focus: false,
            window_created: false,
            wakeup_pending: false,
            pending_key: None,
            phase: LoopPhase::NewEvents(StartCause::Init),
        };
        assert(r@.queue =~= Seq::<EventView>::empty());
        assert(r@.batch =~= Seq::<EventView>::empty());
        assert(r@.batch + r@.queue =~= Seq::<EventView>::empty());
        r
    }

    fn push_event(&mut self, event: Event)
        requires
            old(self)@.inv(),
            !(event is WakeUp) || !old(self)@.wakeup_pending,
        ensures
            final(self)@ == (RunnerModel {
                queue: old(self)@.queue.push(event@),
                wakeup_pending: old(self)@.wakeup_pending || event is WakeUp,
                ..old(self)@
            }),
            final(self)@.inv(),
    {
        let ghost pre = self@;
        let ghost e = event@;
        let is_wakeup = match &event {
            Event::WakeUp => true,
            _ => false,
        };
        self.queue.push_back(event);
        if is_wakeup {
            self.wakeup_pending = true;
        }
        proof {
            assert(self@.queue =~= pre.queue.push(e));
            assert(pre.batch + pre.queue.push(e) =~= (pre.batch + pre.queue) + seq![e]);
            lemma_wakeups_concat(pre.batch + pre.queue, seq![e]);
            lemma_wakeups_single(e);
        }
    }

    fn push_window_event(&mut self, event: WindowEvent)
        requires
            old(self)@.inv(),
        ensures
            final(self)@ == old(self)@.queued(event@),
            final(self)@.inv(),
    {
        self.push_event(Event::Window { window_id: WindowId(GLOBAL_WINDOW), event });
    }

    /// The current control flow.
    pub fn control_flow(&self) -> (r: ControlFlow)
        ensures
            r == self@.control_flow,
    {
        self.control_flow
    }

    /// Sets how the loop waits between iterations.
    pub fn set_control_flow(&mut self, control_flow: ControlFlow)
        requires
            old(self)@.inv(),
        ensures
            final(self)@ == (RunnerModel { control_flow, ..old(self)@ }),
            final(self)@.inv(),
    {
        self.control_flow = control_flow;
    }

    /// Asks the loop to end after the current iteration.
    pub fn exit(&mut self)
        requires
            old(self)@.inv(),
        ensures
            final(self)@ == (RunnerModel { exit_requested: true, ..old(self)@ }),
            final(self)@.inv(),
    {
        self.exit_requested = true;
    }

    /// Whether the loop was asked to end.
    pub fn exiting(&self) -> (r: bool)
        ensures
            r == self@.exit_requested,
    {
        self.exit_requested
    }

    /// The last known size of the surface, in pixels.
    pub fn surface_size(&self) -> (r: PhysicalSize)
        ensures
            r == self@.surface_size,
    {
        self.surface_size
    }

    /// The current scale factor.
    pub fn scale_factor(&self) -> (r: ScaleFactor)
        ensures
            r == self@.scale_factor,
    {
        self.scale_factor
    }

    /// Whether the window has the focus.
    pub fn has_focus(&self) -> (r: bool)
        ensures
            r == self@.has_focus,
    {
        self.has_focus
    }

    /// Whether the window was created.
    pub fn window_created(&self) -> (r: bool)
        ensures
            r == self@.window_created,
    {
        self.window_created
    }

    /// Where the loop stands.
    pub fn phase(&self) -> (r: LoopPhase)
        ensures
            r == self@.phase,
    {
        self.phase
    }

    /// The number of events queued for the next batch.
    pub fn queued_len(&self) -> (r: usize)
        ensures
            r == self@.queue.len(),
    {
        self.queue.len()
    }

    /// Queues a wake-up unless one is pending. Returns whether it queued one, in which case the
    /// host wakes the native dispatcher.
    pub fn queue_wakeup(&mut self) -> (r: bool)
        requires
            old(self)@.inv(),
        ensures
            wakeup_queued(old(self)@, final(self)@),
            r == !old(self)@.wakeup_pending,
            final(self)@.inv(),
    {
        if self.wakeup_pending {
            return false;
        }
        self.push_event(Event::WakeUp);
        true
    }

    /// Queues a redraw request for the window.
    pub fn request_redraw(&mut self)
        requires
            old(self)@.inv(),
        ensures
            final(self)@ == old(self)@.queued(WindowEventView::RedrawRequested),
            final(self)@.inv(),
    {
        self.push_window_event(WindowEvent::RedrawRequested);
    }

    /// Records that the window was activated or deactivated.
    pub fn handle_activated(&mut self, active: bool)
        requires
            old(self)@.inv(),
        ensures
            final(self)@ == (RunnerModel { has_focus: active, ..old(self)@.queued(WindowEventView::Focused(active)) }),
            final(self)@.inv(),
    {
        self.has_focus = active;
        self.push_window_event(WindowEvent::Focused(active));
    }

    /// Records that the window was closed.
    pub fn handle_closed(&mut self)
        requires
            old(self)@.inv(),
        ensures
            final(self)@ == old(self)@.queued(WindowEventView::CloseRequested),
            final(self)@.inv(),
    {
        self.push_window_event(WindowEvent::CloseRequested);
    }

    /// Takes the window's scale factor (if the display could be asked) and its logical bounds.
    pub fn set_window(&mut self, scale_factor: Option<ScaleFactor>, bounds: LogicalSize)
        requires
            old(self)@.inv(),
            scale_factor matches Some(s) ==> s.is_valid(),
        ensures
            final(self)@ == window_bound(old(self)@, scale_factor, bounds),
            final(self)@.inv(),
    {
        if let Some(scale) = scale_factor {
            self.scale_factor = scale;
        }
        self.surface_size = to_physical_size(bounds, self.scale_factor);
    }

    /// Records the new logical size of the window.
    pub fn handle_size_changed(&mut self, size: LogicalSize)
        requires
            old(self)@.inv(),
        ensures
            final(self)@ == (RunnerModel {
                surface_size: size_to_physical(size, old(self)@.scale_factor),
                ..old(self)@.queued(WindowEventView::SurfaceResized(size_to_physical(size, old(self)@.scale_factor)))
            }),
            final(self)@.inv(),
    {
        let physical = to_physical_size(size, self.scale_factor);
        self.surface_size = physical;
        self.push_window_event(WindowEvent::SurfaceResized(physical));
    }

    /// Records a new scale factor. A change within the tolerance is ignored; otherwise the
    /// surface keeps its logical size, and a `ScaleFactorChanged` event carries the new pixel size.
    pub fn handle_dpi_changed(&mut self, scale_factor: ScaleFactor)
        requires
            old(self)@.inv(),
            scale_factor.is_valid(),
        ensures
            final(self)@ == dpi_changed(old(self)@, scale_factor),
            final(self)@.inv(),
    {
        let old_scale = self.scale_factor;
        if !scale_changed(old_scale, scale_factor) {
            return;
        }
        let new_size = rescale_size(self.surface_size, old_scale, scale_factor);
        self.scale_factor = scale_factor;
        self.surface_size = new_size;
        self.push_window_event(WindowEvent::ScaleFactorChanged { scale_factor, surface_size: new_size });
    }

    /// Records the surface size that the application chose while handling the
    /// `ScaleFactorChanged` event just dispatched. At any other time it changes nothing.
    pub fn commit_surface_size(&mut self, size: PhysicalSize)
        requires
            old(self)@.inv(),
        ensures
            final(self)@ == surface_size_committed(old(self)@, size),
            final(self)@.inv(),
    {
        if let LoopPhase::Resizing = self.phase {
            self.surface_size = size;
            self.phase = LoopPhase::Dispatching;
        }
    }

    /// Queues the entry of a pointer into the window.
    pub fn handle_pointer_entered(&mut self, point: &PointerPoint)
        requires
            old(self)@.inv(),
        ensures
            final(self)@ == old(self)@.queued(pointer_entered(*point, old(self)@.scale_factor)),
            final(self)@.inv(),
    {
        let d = pointer_details(point, self.scale_factor);
        self.push_window_event(WindowEvent::PointerEntered { position: d.position, primary: d.primary, kind: d.kind });
    }

    /// Queues the exit of a pointer from the window.
    pub fn handle_pointer_exited(&mut self, point: &PointerPoint)
        requires
            old(self)@.inv(),
        ensures
            final(self)@ == old(self)@.queued(pointer_left(*point, old(self)@.scale_factor)),
            final(self)@.inv(),
    {
        let d = pointer_details(point, self.scale_factor);
        self.push_window_event(WindowEvent::PointerLeft { position: None, primary: d.primary, kind: d.kind });
    }

    /// Queues the move of a pointer.
    pub fn handle_pointer_moved(&mut self, point: &PointerPoint)
        requires
            old(self)@.inv(),
        ensures
            final(self)@ == old(self)@.queued(pointer_moved(*point, old(self)@.scale_factor)),
            final(self)@.inv(),
    {
        let d = pointer_details(point, self.scale_factor);
        self.push_window_event(WindowEvent::PointerMoved { position: d.position, primary: d.primary, source: d.source });
    }

    /// Queues the press or release of a pointer button.
    pub fn handle_pointer_button(&mut self, point: &PointerPoint, state: ElementState)
        requires
            old(self)@.inv(),
        ensures
            final(self)@ == old(self)@.queued(pointer_button(*point, old(self)@.scale_factor, state)),
            final(self)@.inv(),
    {
        let d = pointer_details(point, self.scale_factor);
        let button = button_source_from_point(point.update_kind, d.source);
        self.push_window_event(WindowEvent::PointerButton { state, position: d.position, primary: d.primary, button });
    }

    /// Queues a wheel turn; an unknown delta counts as 0 and an unknown axis as vertical.
    pub fn handle_pointer_wheel(&mut self, delta: Option<i32>, is_horizontal: Option<bool>)
        requires
            old(self)@.inv(),
        ensures
            final(self)@ == old(self)@.queued(wheel_turned(delta, is_horizontal)),
            final(self)@.inv(),
    {
        let d: i32 = match delta {
            Some(d) => d,
            None => 0,
        };
        let h = match is_horizontal {
            Some(h) => h,
            None => false,
        };
        self.push_window_event(WindowEvent::MouseWheel { delta: wheel_delta(d, h), phase: TouchPhase::Moved });
    }

    fn push_key_input(&mut self, event: KeyEvent)
        requires
            old(self)@.inv(),
        ensures
            final(self)@ == (RunnerModel { queue: old(self)@.queue.push(key_input(event@)), ..old(self)@ }),
            final(self)@.inv(),
    {
        self.push_window_event(WindowEvent::KeyboardInput { event, is_synthetic: false });
    }

    /// Handles a native key-down or key-up. The modifiers are read from the native key states
    /// (`None` when the window is gone) and queued first. A press that should still produce a
    /// character is held back until the character or the release arrives; any press held back
    /// before is queued first. A release also queues the press held back for its scancode.
    pub fn handle_key(
        &mut self,
        virtual_key: i32,
        scan_code: u32,
        repeat_count: u32,
        key_states: Option<ModifierKeyStates>,
        state: ElementState,
    )
        requires
            old(self)@.inv(),
        ensures
            key_handled(old(self)@, final(self)@, virtual_key, scan_code, repeat_count, spec_modifiers(key_states), state),
            final(self)@.inv(),
    {
        let scancode = (scan_code % 0x1_0000) as u16;
        let modifiers = modifiers_from_key_states(key_states);
        self.push_window_event(WindowEvent::ModifiersChanged(modifiers));

        let pressed = state == ElementState::Pressed;
        let (logical_key, mapped_text) = map_key(virtual_key, modifiers);
        let (key_without_modifiers, _) = map_key(virtual_key, ModifiersState::empty());
        let is_character = match &logical_key {
            Key::Character(_) => true,
            _ => false,
        };
        let text = if pressed { mapped_text } else { None };
        let text_with_all_modifiers = text.clone();
        let event = KeyEvent {
            physical_key: PhysicalKey::Unidentified(NativeKeyCode::Windows(scancode)),
            logical_key,
            text,
            location: KeyLocation::Standard,
            state,
            repeat: pressed && repeat_count > 1,
            text_with_all_modifiers,
            key_without_modifiers,
        };
        assert(event@ == spec_key_event(virtual_key, scan_code, repeat_count, modifiers, state));

        if pressed {
            let expect_text = is_character && !modifiers.control && !modifiers.alt && !modifiers.meta;
            if let Some(pending) = self.pending_key.take() {
                self.push_key_input(pending.event);
            }
            if expect_text {
                self.pending_key = Some(PendingKeyDown { scancode, event });
                return;
            }
        } else {
            let flush = match &self.pending_key {
                Some(pending) => pending.scancode == scancode,
                None => false,
            };
            if flush {
                if let Some(pending) = self.pending_key.take() {
                    self.push_key_input(pending.event);
                }
            }
        }
        self.push_key_input(event);
    }

    /// Gives the held-back key press the character that the native layer decoded, and queues it.
    /// A code that is not a character, or a character with no press held back, changes nothing.
    pub fn handle_character_received(&mut self, code: u32)
        requires
            old(self)@.inv(),
        ensures
            character_received(old(self)@, final(self)@, code),
            final(self)@.inv(),
    {
        if let Some(ch) = char_from_u32(code) {
            if let Some(pending) = self.pending_key.take() {
                let mut event = pending.event;
                event.logical_key = Key::Character(char_to_string(ch));
                event.text = Some(char_to_string(ch));
                event.text_with_all_modifiers = Some(char_to_string(ch));
                self.push_key_input(event);
            }
        }
    }

    /// Marks the one window as created. Returns whether it had been marked before.
    pub fn claim_window(&mut self) -> (r: bool)
        requires
            old(self)@.inv(),
        ensures
            r == old(self)@.window_created,
            final(self)@ == (RunnerModel { window_created: true, ..old(self)@ }),
            final(self)@.inv(),
    {
        let was = self.window_created;
        self.window_created = true;
        was
    }

    fn dispatch_next(&mut self) -> (r: LoopStep)
        requires
            old(self)@.inv(),
        ensures
            (final(self)@, r@) == dispatch_from(old(self)@),
            final(self)@.inv(),
    {
        let ghost pre = self@;
        match self.batch.pop_front() {
            Some(event) => {
                let is_wakeup = match &event {
                    Event::WakeUp => true,
                    _ => false,
                };
                let is_scale_change = match &event {
                    Event::Window { event: WindowEvent::ScaleFactorChanged { .. }, .. } => true,
                    _ => false,
                };
                if is_wakeup {
                    self.wakeup_pending = false;
                }
                self.phase = if is_scale_change { LoopPhase::Resizing } else { LoopPhase::Dispatching };
                proof {
                    assert(self@.batch =~= pre.batch.subrange(1, pre.batch.len() as int));
                    assert((pre.batch + pre.queue).subrange(1, (pre.batch + pre.queue).len() as int)
                        =~= self@.batch + self@.queue);
                    lemma_wakeups_first(pre.batch + pre.queue);
                }
                LoopStep::Dispatch(event)
            },
            None => {
                self.phase = LoopPhase::Finish;
                LoopStep::AboutToWait
            },
        }
    }

    /// Decides the next step of the loop, given the time now, and moves on.
    pub fn next_step(&mut self, now: Timestamp) -> (r: LoopStep)
        requires
            old(self)@.inv(),
        ensures
            (final(self)@, r@) == spec_step(old(self)@, now),
            final(self)@.inv(),
    {
        match self.phase {
            LoopPhase::NewEvents(cause) => {
                self.phase = LoopPhase::Pump;
                LoopStep::NewEvents { cause }
            },
            LoopPhase::Pump => {
                self.phase = LoopPhase::Swap;
                LoopStep::PumpEvents(pump_mode(self.control_flow, now))
            },
            LoopPhase::Swap => {
                let ghost pre = self@;
                let mut taken: VecDeque<Event> = VecDeque::new();
                std::mem::swap(&mut self.queue, &mut taken);
                self.batch.append(&mut taken);
                proof {
                    assert(self@.batch =~= pre.batch + pre.queue);
                    assert(self@.queue =~= Seq::<EventView>::empty());
                    assert(self@.batch + self@.queue =~= pre.batch + pre.queue);
                }
                self.dispatch_next()
            },
            LoopPhase::Dispatching => self.dispatch_next(),
            LoopPhase::Resizing => self.dispatch_next(),
            LoopPhase::Finish => {
                if self.exit_requested {
                    self.phase = LoopPhase::Exited;
                    LoopStep::Exit
                } else {
                    self.phase = LoopPhase::Pump;
                    LoopStep::NewEvents { cause: next_start_cause(self.control_flow, now) }
                }
            },
            LoopPhase::Exited => LoopStep::Exit,
        }
    }
}

/// `post` is `pre` after a wake-up request: one wake-up queued unless one was pending.
pub open spec fn wakeup_queued(pre: RunnerModel, post: RunnerModel) -> bool {
    if pre.wakeup_pending {
        post == pre
    } else {
        post == (RunnerModel { queue: pre.queue.push(EventView::WakeUp), wakeup_pending: true, ..pre })
    }
}


/// `pre` once the window is bound: the scale factor given (or kept), and the bounds in pixels.
pub open spec fn window_bound(pre: RunnerModel, scale_factor: Option<ScaleFactor>, bounds: LogicalSize) -> RunnerModel {
    let scale = match scale_factor {
        Some(s) => s,
        None => pre.scale_factor,
    };
    RunnerModel { scale_factor: scale, surface_size: size_to_physical(bounds, scale), ..pre }
}

/// `pre` after the display reported a scale factor.
pub open spec fn dpi_changed(pre: RunnerModel, scale_factor: ScaleFactor) -> RunnerModel {
    if !scales_differ(pre.scale_factor, scale_factor) {
        pre
    } else {
        let size = size_rescaled(pre.surface_size, pre.scale_factor, scale_factor);
        RunnerModel {
            scale_factor,
            surface_size: size,
            ..pre.queued(WindowEventView::ScaleFactorChanged { scale_factor, surface_size: size })
        }
    }
}

pub open spec fn pointer_entered(point: PointerPoint, scale: ScaleFactor) -> WindowEventView {
    let d = spec_pointer_details(point, scale);
    WindowEventView::PointerEntered { position: d.position, primary: d.primary, kind: d.kind }
}

pub open spec fn pointer_left(point: PointerPoint, scale: ScaleFactor) -> WindowEventView {
    let d = spec_pointer_details(point, scale);
    WindowEventView::PointerLeft { position: None, primary: d.primary, kind: d.kind }
}

pub open spec fn pointer_moved(point: PointerPoint, scale: ScaleFactor) -> WindowEventView {
    let d = spec_pointer_details(point, scale);
    WindowEventView::PointerMoved { position: d.position, primary: d.primary, source: d.source }
}

pub open spec fn pointer_button(point: PointerPoint, scale: ScaleFactor, state: ElementState) -> WindowEventView {
    let d = spec_pointer_details(point, scale);
    WindowEventView::PointerButton {
        state,
        position: d.position,
        primary: d.primary,
        button: spec_button_source(point.update_kind, d.source),
    }
}

pub open spec fn wheel_turned(delta: Option<i32>, is_horizontal: Option<bool>) -> WindowEventView {
    WindowEventView::MouseWheel {
        delta: spec_wheel_delta(
            match delta { Some(d) => d, None => 0 },
            match is_horizontal { Some(h) => h, None => false },
        ),
        phase: TouchPhase::Moved,
    }
}


/// The key event of a native key signal; a release carries no text and never repeats.
pub open spec fn spec_key_event(
    virtual_key: i32,
    scan_code: u32,
    repeat_count: u32,
    modifiers: ModifiersState,
    state: ElementState,
) -> KeyEventView {
    let pressed = state == ElementState::Pressed;
    let text = if pressed { spec_map_key_text(virtual_key, modifiers) } else { None };
    KeyEventView {
        physical_key: PhysicalKey::Unidentified(NativeKeyCode::Windows((scan_code % 0x1_0000) as u16)),
        logical_key: spec_map_key(virtual_key, modifiers),
        text,
        location: KeyLocation::Standard,
        state,
        repeat: pressed && repeat_count > 1,
        text_with_all_modifiers: text,
        key_without_modifiers: spec_map_key(virtual_key, ModifiersState::spec_empty()),
    }
}

/// Whether a press should still produce a character: a character key with no control, alt or
/// meta modifier held.
pub open spec fn expects_text(event: KeyEventView, modifiers: ModifiersState) -> bool {
    event.logical_key is Character && !modifiers.control && !modifiers.alt && !modifiers.meta
}

/// `post` is `pre` after a native key-down or key-up.
pub open spec fn key_handled(
    pre: RunnerModel,
    post: RunnerModel,
    virtual_key: i32,
    scan_code: u32,
    repeat_count: u32,
    modifiers: ModifiersState,
    state: ElementState,
) -> bool {
    let scancode = (scan_code % 0x1_0000) as u16;
    let event = spec_key_event(virtual_key, scan_code, repeat_count, modifiers, state);
    let announced = pre.queue.push(window_event(WindowEventView::ModifiersChanged(modifiers)));
    if state == ElementState::Pressed {
        let flushed = match pre.pending_key {
            Some((_, p)) => announced.push(key_input(p)),
            None => announced,
        };
        if expects_text(event, modifiers) {
            post == (RunnerModel { queue: flushed, pending_key: Some((scancode, event)), ..pre })
        } else {
            post == (RunnerModel { queue: flushed.push(key_input(event)), pending_key: None, ..pre })
        }
    } else {
        match pre.pending_key {
            Some((sc, p)) => if sc == scancode {
                post == (RunnerModel {
                    queue: announced.push(key_input(p)).push(key_input(event)),
                    pending_key: None,
                    ..pre
                })
            } else {
                post == (RunnerModel { queue: announced.push(key_input(event)), ..pre })
            },
            None => post == (RunnerModel { queue: announced.push(key_input(event)), ..pre }),
        }
    }
}

/// A held-back key press once its character is known.
pub open spec fn with_character(event: KeyEventView, c: char) -> KeyEventView {
    KeyEventView {
        logical_key: KeyView::Character(seq![c]),
        text: Some(seq![c]),
        text_with_all_modifiers: Some(seq![c]),
        ..event
    }
}

/// `post` is `pre` after the native layer reported a character code.
pub open spec fn character_received(pre: RunnerModel, post: RunnerModel, code: u32) -> bool {
    match pre.pending_key {
        Some((_, p)) => if is_scalar_value(code) {
            post == (RunnerModel {
                queue: pre.queue.push(key_input(with_character(p, code as char))),
                pending_key: None,
                ..pre
            })
        } else {
            post == pre
        },
        None => post == pre,
    }
}


/// How to pump the native events under a control flow at the time now.
pub open spec fn spec_pump_mode(control_flow: ControlFlow, now: Timestamp) -> PumpMode {
    match control_flow {
        ControlFlow::Poll => PumpMode::ProcessAllIfPresent,
        ControlFlow::Wait => PumpMode::ProcessOneAndAllPending,
        ControlFlow::WaitUntil(instant) => if now.nanos < instant.nanos {
            PumpMode::SleepThenProcessAll { nanos: (instant.nanos - now.nanos) as u64 }
        } else {
            PumpMode::ProcessAllIfPresent
        },
    }
}

/// Decides how to pump the native events under a control flow at the time now.
pub fn pump_mode(control_flow: ControlFlow, now: Timestamp) -> (r: PumpMode)
    ensures
        r == spec_pump_mode(control_flow, now),
{
    match control_flow {
        ControlFlow::Poll => PumpMode::ProcessAllIfPresent,
        ControlFlow::Wait => PumpMode::ProcessOneAndAllPending,
        ControlFlow::WaitUntil(instant) => {
            if now.nanos < instant.nanos {
                PumpMode::SleepThenProcessAll { nanos: instant.nanos - now.nanos }
            } else {
                PumpMode::ProcessAllIfPresent
            }
        },
    }
}

/// Whether an event is a scale-factor change, whose surface size the application may choose.
pub open spec fn is_scale_change(e: EventView) -> bool {
    e matches EventView::Window { event: WindowEventView::ScaleFactorChanged { .. }, .. }
}

/// `pre` after the host reported the surface size chosen for the scale-factor change just
/// dispatched: it becomes the surface size, and the batch goes on. At any other time, `pre`.
pub open spec fn surface_size_committed(pre: RunnerModel, size: PhysicalSize) -> RunnerModel {
    if pre.phase is Resizing {
        RunnerModel { surface_size: size, phase: LoopPhase::Dispatching, ..pre }
    } else {
        pre
    }
}

/// The step that takes the next event of the batch, or ends the batch when it is empty.
/// Taking a wake-up clears the pending flag, so that a request made while it is handled is kept;
/// taking a scale-factor change waits for the surface size the application chooses.
pub open spec fn dispatch_from(m: RunnerModel) -> (RunnerModel, LoopStepView) {
    if m.batch.len() == 0 {
        (RunnerModel { phase: LoopPhase::Finish, ..m }, LoopStepView::AboutToWait)
    } else {
        let e = m.batch[0];
        (
            RunnerModel {
                batch: m.batch.subrange(1, m.batch.len() as int),
                wakeup_pending: if e is WakeUp { false } else { m.wakeup_pending },
                phase: if is_scale_change(e) { LoopPhase::Resizing } else { LoopPhase::Dispatching },
                ..m
            },
            LoopStepView::Dispatch(e),
        )
    }
}

/// One step of the loop: the next state and what the host does.
pub open spec fn spec_step(pre: RunnerModel, now: Timestamp) -> (RunnerModel, LoopStepView) {
    match pre.phase {
        LoopPhase::NewEvents(cause) => (
            RunnerModel { phase: LoopPhase::Pump, ..pre },
            LoopStepView::NewEvents { cause },
        ),
        LoopPhase::Pump => (
            RunnerModel { phase: LoopPhase::Swap, ..pre },
            LoopStepView::PumpEvents(spec_pump_mode(pre.control_flow, now)),
        ),
        LoopPhase::Swap => dispatch_from(RunnerModel { batch: pre.batch + pre.queue, queue: Seq::empty(), ..pre }),
        LoopPhase::Dispatching => dispatch_from(pre),
        LoopPhase::Resizing => dispatch_from(pre),
        LoopPhase::Finish => if pre.exit_requested {
            (RunnerModel { phase: LoopPhase::Exited, ..pre }, LoopStepView::Exit)
        } else {
            (
                RunnerModel { phase: LoopPhase::Pump, ..pre },
                LoopStepView::NewEvents { cause: spec_next_start_cause(pre.control_flow, now) },
            )
        },
        LoopPhase::Exited => (pre, LoopStepView::Exit),
    }
}

} // verus!
