//! The window's input state and the dispatch of events to listeners.
//!
//! A [`Window`] keeps one list of listeners for each kind of event. An
//! event first updates the [`WindowState`], then every listener of its kind
//! is called, in the order of registration, with the updated state. A
//! listener is handed the window state by shared reference and never the
//! window itself, so it cannot start a dispatch from within one.

use vstd::prelude::*;
use crate::event::{ElementState, Event, EventKind, MouseButton, WindowEvent};
use crate::vector::Vec2;

verus! {

/// Why a window could not be made.
#[derive(Clone, Copy, Debug, PartialEq, Eq, Structural)]
pub enum WindowError {
    /// The scale between logical and physical pixels was zero or negative.
    InvalidHidpiFactor,
}

/// What a window state holds.
#[derive(Clone, Copy, Debug, PartialEq, Eq, Structural)]
pub struct WindowData {
    /// The size in logical pixels.
    pub size: Vec2,
    /// The size in physical pixels: the logical size times the scale.
    pub physical_size: Vec2,
    /// Physical pixels per logical pixel. Fixed when the window is made.
    pub hidpi_factor: i64,
    /// Where the pointer last was, in logical pixels.
    pub mouse_position: Vec2,
    pub is_left_mouse_down: bool,
    pub is_right_mouse_down: bool,
    /// How far the pointer came with the last move.
    pub mouse_motion: Vec2,
    /// The last turn of the wheel.
    pub mouse_wheel_delta: Vec2,
}

impl WindowData {
    /// The scale is positive and the physical size follows from the
    /// logical one.
    pub open spec fn wf(self) -> bool {
        &&& self.hidpi_factor > 0
        &&& self.physical_size == self.size.spec_scaled(self.hidpi_factor)
    }

    /// A window of the given size that has seen no input yet.
    pub open spec fn initial(size: Vec2, hidpi_factor: i64) -> WindowData {
        WindowData {
            size,
            physical_size: size.spec_scaled(hidpi_factor),
            hidpi_factor,
            mouse_position: Vec2 { x: 0, y: 0 },
            is_left_mouse_down: false,
            is_right_mouse_down: false,
            mouse_motion: Vec2 { x: 0, y: 0 },
            mouse_wheel_delta: Vec2 { x: 0, y: 0 },
        }
    }

    pub open spec fn resized(self, size: Vec2) -> WindowData {
        WindowData { size, physical_size: size.spec_scaled(self.hidpi_factor), ..self }
    }

    pub open spec fn moved_to(self, position: Vec2) -> WindowData {
        WindowData {
            mouse_position: position,
            mouse_motion: position.spec_minus(self.mouse_position),
            ..self
        }
    }

    pub open spec fn pressed(self, state: ElementState, button: MouseButton) -> WindowData {
        let down = state == ElementState::Pressed;
        match button {
            MouseButton::Left => WindowData { is_left_mouse_down: down, ..self },
            MouseButton::Right => WindowData { is_right_mouse_down: down, ..self },
            _ => self,
        }
    }

    pub open spec fn scrolled(self, delta: Vec2) -> WindowData {
        WindowData { mouse_wheel_delta: delta, ..self }
    }

    /// The state once `event` has been taken in.
    pub open spec fn after(self, event: Event) -> WindowData {
        match event {
            Event::WindowEvent(WindowEvent::Resized(size)) => self.resized(size),
            Event::WindowEvent(WindowEvent::CursorMoved { position }) => self.moved_to(position),
            Event::WindowEvent(WindowEvent::MouseInput { state, button }) => self.pressed(
                state,
                button,
            ),
            Event::WindowEvent(WindowEvent::MouseWheel { delta }) => self.scrolled(delta),
            _ => self,
        }
    }
}

/// No event changes the scale, and every event leaves the physical size
/// equal to the logical size times the scale.
pub proof fn lemma_events_keep_scale(data: WindowData, event: Event)
    requires
        data.wf(),
    ensures
        data.after(event).hidpi_factor == data.hidpi_factor,
        data.after(event).wf(),
{
}

/// The input a window has gathered. Every value of this type is well
/// formed in the sense of [`WindowData::wf`].
pub struct WindowState {
    data: WindowData,
}

impl View for WindowState {
    type V = WindowData;

    closed spec fn view(&self) -> WindowData {
        self.data
    }
}

impl WindowState {
    #[verifier::type_invariant]
    spec fn well_formed(self) -> bool {
        self.data.wf()
    }

    /// A window state of the given logical size and scale. A scale that is
    /// not positive is refused.
    pub fn new(size: Vec2, hidpi_factor: i64) -> (r: Result<WindowState, WindowError>)
        ensures
            hidpi_factor > 0 ==> r is Ok && r->Ok_0@ == WindowData::initial(size, hidpi_factor),
            hidpi_factor <= 0 ==> r == Err::<WindowState, WindowError>(
                WindowError::InvalidHidpiFactor,
            ),
    {
        if hidpi_factor <= 0 {
            return Err(WindowError::InvalidHidpiFactor);
        }
        Ok(
            WindowState {
                data: WindowData {
                    size,
                    physical_size: size.scaled(hidpi_factor),
                    hidpi_factor,
                    mouse_position: Vec2::zero(),
                    is_left_mouse_down: false,
                    is_right_mouse_down: false,
                    mouse_motion: Vec2::zero(),
                    mouse_wheel_delta: Vec2::zero(),
                },
            },
        )
    }

    /// Takes a new logical size and derives the physical size from it.
    pub fn update_size(&mut self, size: &Vec2)
        ensures
            final(self)@ == old(self)@.resized(*size),
    {
        proof {
            use_type_invariant(&*self);
        }
        let data = self.data;
        self.data = WindowData {
            size: *size,
            physical_size: size.scaled(data.hidpi_factor),
            ..data
        };
    }

    /// Takes a new pointer position and records how far the pointer came.
    pub fn mouse_move_to(&mut self, position: &Vec2)
        ensures
            final(self)@ == old(self)@.moved_to(*position),
    {
        proof {
            use_type_invariant(&*self);
        }
        let data = self.data;
        self.data = WindowData {
            mouse_position: *position,
            mouse_motion: position.minus(data.mouse_position),
            ..data
        };
    }

    /// Records that a button went down or came up. Only the left and the
    /// right button are kept track of.
    pub fn mouse_input(&mut self, state: ElementState, button: MouseButton)
        ensures
            final(self)@ == old(self)@.pressed(state, button),
    {
        proof {
            use_type_invariant(&*self);
        }
        let data = self.data;
        let down = match state {
            ElementState::Pressed => true,
            ElementState::Released => false,
        };
        match button {
            MouseButton::Left => {
                self.data = WindowData { is_left_mouse_down: down, ..data };
            },
            MouseButton::Right => {
                self.data = WindowData { is_right_mouse_down: down, ..data };
            },
            _ => {},
        }
    }

    /// Records the last turn of the wheel in place of the one before.
    pub fn mouse_wheel(&mut self, delta: &Vec2)
        ensures
            final(self)@ == old(self)@.scrolled(*delta),
    {
        proof {
            use_type_invariant(&*self);
        }
        let data = self.data;
        self.data = WindowData { mouse_wheel_delta: *delta, ..data };
    }

    /// Everything the state holds, as plain data.
    pub fn data(&self) -> (r: WindowData)
        ensures
            r == self@,
            r.wf(),
    {
        proof {
            use_type_invariant(self);
        }
        self.data
    }
}

/// Something that reacts to events of one kind.
///
/// A listener works on the application state it is handed and keeps none of
/// its own. What it does there is for each listener to say, in `handles`;
/// one that says nothing promises nothing.
pub trait Listener<AppState, Renderer> {
    /// Whether one call, made with this window state, may lead from the
    /// first application state and renderer to the second.
    open spec fn handles(
        &self,
        window: &WindowState,
        state_before: &AppState,
        state_after: &AppState,
        renderer_before: &Renderer,
        renderer_after: &Renderer,
    ) -> bool {
        true
    }

    fn handle(&self, window: &WindowState, state: &mut AppState, renderer: &mut Renderer)
        ensures
            self.handles(window, old(state), final(state), old(renderer), final(renderer)),
    ;
}

/// A listener as the window keeps it.
#[verifier::reject_recursive_types(AppState)]
#[verifier::reject_recursive_types(Renderer)]
pub struct Registered<AppState, Renderer> {
    pub func: Box<dyn Listener<AppState, Renderer>>,
}

impl<AppState, Renderer> Registered<AppState, Renderer> {
    /// Boxes a listener for the window to keep.
    pub fn new<T: Listener<AppState, Renderer> + 'static>(func: T) -> (r: Self)
        ensures
            r == (Registered::<AppState, Renderer> { func: Box::new(func) }),
    {
        Registered { func: Box::new(func) }
    }
}

/// `steps` is a run of the listeners, each called once and in order: the
/// first starts from `steps[0]`, and each one starts from where the one
/// before it ended.
pub open spec fn ran_in_order<AppState, Renderer>(
    listeners: Seq<Registered<AppState, Renderer>>,
    window: &WindowState,
    steps: Seq<(AppState, Renderer)>,
) -> bool {
    &&& steps.len() == listeners.len() + 1
    &&& forall|i: int|
        0 <= i < listeners.len() ==> (#[trigger] listeners[i]).func.handles(
            window,
            &steps[i].0,
            &steps[i + 1].0,
            &steps[i].1,
            &steps[i + 1].1,
        )
}

/// Calling the listeners once each, in order, can lead from `before` to
/// `after`.
pub open spec fn dispatched<AppState, Renderer>(
    listeners: Seq<Registered<AppState, Renderer>>,
    window: &WindowState,
    before: (AppState, Renderer),
    after: (AppState, Renderer),
) -> bool {
    exists|steps: Seq<(AppState, Renderer)>|
        #[trigger] ran_in_order(listeners, window, steps) && steps[0] == before && steps.last()
            == after
}

/// A window: its input state and the listeners registered with it.
#[verifier::reject_recursive_types(AppState)]
#[verifier::reject_recursive_types(Renderer)]
pub struct Window<AppState, Renderer> {
    window_state: WindowState,
    click_listeners: Vec<Registered<AppState, Renderer>>,
    resize_listeners: Vec<Registered<AppState, Renderer>>,
    motion_listeners: Vec<Registered<AppState, Renderer>>,
    release_listeners: Vec<Registered<AppState, Renderer>>,
    wheel_listeners: Vec<Registered<AppState, Renderer>>,
}

/// Calls each listener once, in order.
fn emit<AppState, Renderer>(
    listeners: &Vec<Registered<AppState, Renderer>>,
    window: &WindowState,
    state: &mut AppState,
    renderer: &mut Renderer,
)
    ensures
        dispatched(
            listeners@,
            window,
            (*old(state), *old(renderer)),
            (*final(state), *final(renderer)),
        ),
{
    let count: usize = listeners.len();
    let ghost mut steps: Seq<(AppState, Renderer)> = seq![(*state, *renderer)];
    let mut next: usize = 0;
    while next < count
        invariant
            next <= count,
            count == listeners.len(),
            steps.len() == next + 1,
            steps[0] == (*old(state), *old(renderer)),
            steps.last() == (*state, *renderer),
            forall|i: int|
                0 <= i < next ==> (#[trigger] listeners@[i]).func.handles(
                    window,
                    &steps[i].0,
                    &steps[i + 1].0,
                    &steps[i].1,
                    &steps[i + 1].1,
                ),
        decreases count - next,
    {
        listeners[next].func.handle(window, state, renderer);
        proof {
            steps = steps.push((*state, *renderer));
        }
        next += 1;
    }
    assert(ran_in_order(listeners@, window, steps));
}

impl<AppState, Renderer> Window<AppState, Renderer> {
    /// The listeners registered for a kind of event, in the order in which
    /// they were registered. Ignored events have none.
    pub closed spec fn listeners(&self, kind: EventKind) -> Seq<Registered<AppState, Renderer>> {
        match kind {
            EventKind::Resize => self.resize_listeners@,
            EventKind::MouseMotion => self.motion_listeners@,
            EventKind::MouseDown => self.click_listeners@,
            EventKind::MouseUp => self.release_listeners@,
            EventKind::Wheel => self.wheel_listeners@,
            EventKind::Ignored => Seq::empty(),
        }
    }

    /// The input state, for contracts.
    pub closed spec fn spec_window_state(&self) -> &WindowState {
        &self.window_state
    }

    /// The input state as the last event left it.
    #[verifier::when_used_as_spec(spec_window_state)]
    pub fn window_state(&self) -> (r: &WindowState)
        ensures
            r == self.window_state(),
    {
        &self.window_state
    }

    /// The window after `entry` was registered for events of kind `kind`:
    /// it comes last in its list and nothing else has changed.
    pub open spec fn registered(
        &self,
        before: &Self,
        kind: EventKind,
        entry: Registered<AppState, Renderer>,
    ) -> bool {
        &&& self.window_state() == before.window_state()
        &&& self.listeners(kind) == before.listeners(kind).push(entry)
        &&& forall|other: EventKind|
            other != kind ==> #[trigger] self.listeners(other) == before.listeners(other)
    }

    /// A window of the given logical size and scale, with no listeners. A
    /// scale that is not positive is refused.
    pub fn new(size: Vec2, hidpi_factor: i64) -> (r: Result<Self, WindowError>)
        ensures
            hidpi_factor > 0 ==> r is Ok && r->Ok_0.window_state()@ == WindowData::initial(
                size,
                hidpi_factor,
            ) && forall|kind: EventKind| #[trigger]
                r->Ok_0.listeners(kind) == Seq::<Registered<AppState, Renderer>>::empty(),
            hidpi_factor <= 0 ==> r is Err && r->Err_0 == WindowError::InvalidHidpiFactor,
    {
        match WindowState::new(size, hidpi_factor) {
            Ok(window_state) => Ok(
                Window {
                    window_state,
                    click_listeners: Vec::new(),
                    resize_listeners: Vec::new(),
                    motion_listeners: Vec::new(),
                    release_listeners: Vec::new(),
                    wheel_listeners: Vec::new(),
                },
            ),
            Err(error) => Err(error),
        }
    }

    /// Registers a listener for clicks: it is called when a button goes
    /// down.
    pub fn listener<T: Listener<AppState, Renderer> + 'static>(&mut self, func: T)
        ensures
            final(self).registered(
                old(self),
                EventKind::MouseDown,
                Registered { func: Box::new(func) },
            ),
    {
        self.click_listeners.push(Registered::new(func));
    }

    /// Registers a listener for changes of the window's size.
    pub fn add_resize_listener<T: Listener<AppState, Renderer> + 'static>(&mut self, func: T)
        ensures
            final(self).registered(
                old(self),
                EventKind::Resize,
                Registered { func: Box::new(func) },
            ),
    {
        self.resize_listeners.push(Registered::new(func));
    }

    /// Registers a listener for moves of the pointer.
    pub fn add_mouse_motion_listener<T: Listener<AppState, Renderer> + 'static>(&mut self, func: T)
        ensures
            final(self).registered(
                old(self),
                EventKind::MouseMotion,
                Registered { func: Box::new(func) },
            ),
    {
        self.motion_listeners.push(Registered::new(func));
    }

    /// Registers a listener that is called when a button comes up.
    pub fn add_mouse_up_listener<T: Listener<AppState, Renderer> + 'static>(&mut self, func: T)
        ensures
            final(self).registered(
                old(self),
                EventKind::MouseUp,
                Registered { func: Box::new(func) },
            ),
    {
        self.release_listeners.push(Registered::new(func));
    }

    /// Registers a listener for turns of the wheel.
    pub fn add_mouse_wheel_listener<T: Listener<AppState, Renderer> + 'static>(&mut self, func: T)
        ensures
            final(self).registered(
                old(self),
                EventKind::Wheel,
                Registered { func: Box::new(func) },
            ),
    {
        self.wheel_listeners.push(Registered::new(func));
    }

    /// Calls the resize listeners, in the order of registration, with the
    /// window state as it stands.
    pub fn emit_resize(&self, state: &mut AppState, renderer: &mut Renderer)
        ensures
            dispatched(
                self.listeners(EventKind::Resize),
                self.window_state(),
                (*old(state), *old(renderer)),
                (*final(state), *final(renderer)),
            ),
    {
        emit(&self.resize_listeners, &self.window_state, state, renderer);
    }

    /// Takes one event: the window state is brought up to date first, then
    /// the listeners of the event's kind are called, in the order of
    /// registration, with the state as updated. An event of no kind changes
    /// nothing and reaches no listener.
    pub fn event(&mut self, event: Event, state: &mut AppState, renderer: &mut Renderer)
        ensures
            final(self).window_state()@ == old(self).window_state()@.after(event),
            final(self).window_state()@.wf(),
            forall|kind: EventKind| #[trigger]
                final(self).listeners(kind) == old(self).listeners(kind),
            dispatched(
                final(self).listeners(event.spec_kind()),
                final(self).window_state(),
                (*old(state), *old(renderer)),
                (*final(state), *final(renderer)),
            ),
    {
        match event {
            Event::WindowEvent(window_event) => match window_event {
                WindowEvent::Resized(size) => {
                    self.window_state.update_size(&size);
                    self.emit_resize(state, renderer);
                },
                WindowEvent::MouseInput { state: pressed, button } => {
                    self.window_state.mouse_input(pressed, button);
                    match pressed {
                        ElementState::Pressed => emit(
                            &self.click_listeners,
                            &self.window_state,
                            state,
                            renderer,
                        ),
                        ElementState::Released => emit(
                            &self.release_listeners,
                            &self.window_state,
                            state,
                            renderer,
                        ),
                    }
                },
                WindowEvent::CursorMoved { position } => {
                    self.window_state.mouse_move_to(&position);
                    emit(&self.motion_listeners, &self.window_state, state, renderer);
                },
                WindowEvent::MouseWheel { delta } => {
                    self.window_state.mouse_wheel(&delta);
                    emit(&self.wheel_listeners, &self.window_state, state, renderer);
                },
                WindowEvent::Other => {
                    proof {
                        lemma_dispatch_none::<AppState, Renderer>(
                            &self.window_state,
                            (*state, *renderer),
                            (*state, *renderer),
                        );
                    }
                },
            },
            _ => {
                proof {
                    lemma_dispatch_none::<AppState, Renderer>(
                        &self.window_state,
                        (*state, *renderer),
                        (*state, *renderer),
                    );
                }
            },
        }
        proof {
            use_type_invariant(&self.window_state);
        }
    }
}

/// With no listeners a dispatch changes nothing.
pub proof fn lemma_dispatch_none<AppState, Renderer>(
    window: &WindowState,
    before: (AppState, Renderer),
    after: (AppState, Renderer),
)
    ensures
        dispatched(Seq::<Registered<AppState, Renderer>>::empty(), window, before, after)
            <==> before == after,
{
    let none = Seq::<Registered<AppState, Renderer>>::empty();
    if before == after {
        let steps = seq![before];
        assert(ran_in_order(none, window, steps));
    }
    if dispatched(none, window, before, after) {
        let steps = choose|steps: Seq<(AppState, Renderer)>|
            #[trigger] ran_in_order(none, window, steps) && steps[0] == before && steps.last()
                == after;
        assert(steps.len() == 1);
    }
}

/// A dispatch to a list with one more listener is a dispatch to the list
/// followed by a call of that listener: the one registered last runs last,
/// from where the others ended.
pub proof fn lemma_dispatch_last<AppState, Renderer>(
    listeners: Seq<Registered<AppState, Renderer>>,
    last: Registered<AppState, Renderer>,
    window: &WindowState,
    before: (AppState, Renderer),
    after: (AppState, Renderer),
)
    ensures
        dispatched(listeners.push(last), window, before, after) <==> exists|
            middle: (AppState, Renderer),
        |
            #[trigger] dispatched(listeners, window, before, middle) && last.func.handles(
                window,
                &middle.0,
                &after.0,
                &middle.1,
                &after.1,
            ),
{
    let all = listeners.push(last);
    if dispatched(all, window, before, after) {
        let steps = choose|steps: Seq<(AppState, Renderer)>|
            #[trigger] ran_in_order(all, window, steps) && steps[0] == before && steps.last()
                == after;
        let shorter = steps.drop_last();
        let middle = shorter.last();
        assert forall|i: int| 0 <= i < listeners.len() implies (#[trigger] listeners[i]).func.handles(
            window,
            &shorter[i].0,
            &shorter[i + 1].0,
            &shorter[i].1,
            &shorter[i + 1].1,
        ) by {
            assert(all[i] == listeners[i]);
        }
        assert(ran_in_order(listeners, window, shorter));
        assert(dispatched(listeners, window, before, middle));
        assert(all[listeners.len() as int] == last);
    }
    if exists|middle: (AppState, Renderer)|
        #[trigger] dispatched(listeners, window, before, middle) && last.func.handles(
            window,
            &middle.0,
            &after.0,
            &middle.1,
            &after.1,
        ) {
        let middle = choose|middle: (AppState, Renderer)|
            #[trigger] dispatched(listeners, window, before, middle) && last.func.handles(
                window,
                &middle.0,
                &after.0,
                &middle.1,
                &after.1,
            );
        let shorter = choose|steps: Seq<(AppState, Renderer)>|
            #[trigger] ran_in_order(listeners, window, steps) && steps[0] == before
                && steps.last() == middle;
        let steps = shorter.push(after);
        assert forall|i: int| 0 <= i < all.len() implies (#[trigger] all[i]).func.handles(
            window,
            &steps[i].0,
            &steps[i + 1].0,
            &steps[i].1,
            &steps[i + 1].1,
        ) by {
            if i < listeners.len() {
                assert(all[i] == listeners[i]);
                assert(steps[i] == shorter[i]);
                assert(steps[i + 1] == shorter[i + 1]);
            }
        }
        assert(ran_in_order(all, window, steps));
    }
}

/// Of two listeners registered one after the other, the first has finished
/// before the second begins: the second starts from the state and the
/// renderer that the first left behind.
pub proof fn lemma_dispatch_order<AppState, Renderer>(
    first: Registered<AppState, Renderer>,
    second: Registered<AppState, Renderer>,
    window: &WindowState,
    before: (AppState, Renderer),
    after: (AppState, Renderer),
)
    ensures
        dispatched(seq![first, second], window, before, after) <==> exists|
            middle: (AppState, Renderer),
        |
            #[trigger] first.func.handles(window, &before.0, &middle.0, &before.1, &middle.1)
                && second.func.handles(window, &middle.0, &after.0, &middle.1, &after.1),
{
    let both = seq![first, second];
    if dispatched(both, window, before, after) {
        let steps = choose|steps: Seq<(AppState, Renderer)>|
            #[trigger] ran_in_order(both, window, steps) && steps[0] == before && steps.last()
                == after;
        assert(both[0] == first && both[1] == second);
        assert(first.func.handles(window, &steps[0].0, &steps[1].0, &steps[0].1, &steps[1].1));
        assert(second.func.handles(window, &steps[1].0, &steps[2].0, &steps[1].1, &steps[2].1));
    }
    if exists|middle: (AppState, Renderer)|
        #[trigger] first.func.handles(window, &before.0, &middle.0, &before.1, &middle.1)
            && second.func.handles(window, &middle.0, &after.0, &middle.1, &after.1) {
        let middle = choose|middle: (AppState, Renderer)|
            #[trigger] first.func.handles(window, &before.0, &middle.0, &before.1, &middle.1)
                && second.func.handles(window, &middle.0, &after.0, &middle.1, &after.1);
        let steps = seq![before, middle, after];
        assert(ran_in_order(both, window, steps));
    }
}

} // verus!
