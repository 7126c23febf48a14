//! The application and its event dispatcher: a machine of two states,
//! uninitialized and running, that turns each event of the windowing system
//! into the one action the caller has to perform. Once the application has
//! asked to leave the loop, or was told that it cannot go on, it remembers
//! why and asks for nothing more.

use vstd::prelude::*;
use winit::window::WindowId;
use crate::bootstrap::SetupError;
use crate::renderer::{same_window, State, StateView, SurfaceFailure};
use crate::surface::{negotiated, PhysicalSize, SurfaceCapabilities};

verus! {

/// The text emitted when the space bar goes down.
pub const DIAGNOSTIC: &'static str = "Uji Coba Repeat";

/// The physical keys the dispatcher tells apart.
#[derive(Clone, Copy, PartialEq, Eq, Structural, Debug)]
pub enum KeyCode {
    Escape,
    Space,
    /// Any other key.
    Other,
}

/// Whether a key went down or up.
#[derive(Clone, Copy, PartialEq, Eq, Structural, Debug)]
pub enum ElementState {
    Pressed,
    Released,
}

/// A key going down or up.
#[derive(Clone, Copy, PartialEq, Eq, Structural, Debug)]
pub struct KeyEvent {
    pub physical_key: KeyCode,
    pub state: ElementState,
    /// Whether the event comes from the key being held down.
    pub repeat: bool,
}

/// What the windowing system says of a window.
#[derive(Clone, Copy, PartialEq, Eq, Structural, Debug)]
pub enum WindowEvent {
    CloseRequested,
    Resized(PhysicalSize),
    RedrawRequested,
    KeyboardInput(KeyEvent),
    /// Any other event.
    Other,
}

/// What the caller has to do in answer to an event.
#[derive(Clone, Copy, PartialEq, Eq, Structural, Debug)]
pub enum Action {
    Nothing,
    /// Create the window, titled with the application's name, and report it
    /// with `window_created`.
    CreateWindow,
    /// Configure the surface with the configuration of the render state,
    /// whose extent is the size given here.
    Configure(PhysicalSize),
    /// Render a frame.
    Render,
    /// Ask the windowing system for another redraw.
    RequestRedraw,
    /// Emit the diagnostic text.
    Diagnostic,
    /// Leave the event loop.
    Exit,
}

/// What the event loop delivers to a running application.
pub enum Event {
    /// An event of the window `window_id`.
    Window { window_id: WindowId, event: WindowEvent },
    /// All pending events have been delivered.
    AboutToWait,
}

/// The action a key calls for: a press of Escape ends the loop and a press
/// of Space emits the diagnostic, whether or not the press is a repeat.
pub open spec fn key_action(key: KeyEvent) -> Action {
    if key.state is Pressed && key.physical_key is Escape {
        Action::Exit
    } else if key.state is Pressed && key.physical_key is Space {
        Action::Diagnostic
    } else {
        Action::Nothing
    }
}

/// The action an event calls for from the application that renders to
/// `window`. Events of other windows call for nothing.
pub open spec fn action_for(window: WindowId, event: Event) -> Action {
    match event {
        Event::AboutToWait => Action::RequestRedraw,
        Event::Window { window_id, event } => if window_id != window {
            Action::Nothing
        } else {
            match event {
                WindowEvent::CloseRequested => Action::Exit,
                WindowEvent::Resized(size) => if size.is_positive() {
                    Action::Configure(size)
                } else {
                    Action::Nothing
                },
                WindowEvent::RedrawRequested => Action::Render,
                WindowEvent::KeyboardInput(key) => key_action(key),
                WindowEvent::Other => Action::Nothing,
            }
        },
    }
}

/// The render state after an event: only a resize of its own window changes it.
pub open spec fn state_after(state: StateView, event: Event) -> StateView {
    match event {
        Event::Window { window_id, event: WindowEvent::Resized(size) } => if window_id
            == state.window {
            state.resized(size)
        } else {
            state
        },
        _ => state,
    }
}

/// The event is a press of `key` in `window`.
pub open spec fn is_press(window: WindowId, key: KeyCode, event: Event) -> bool {
    event matches Event::Window { window_id, event: WindowEvent::KeyboardInput(input) }
        && window_id == window && input.state is Pressed && input.physical_key == key
}

/// The status a process ends with after its window was closed.
pub const STATUS_CLOSED: u8 = 0;

/// The status a process ends with after a failure.
pub const STATUS_FAILED: u8 = 1;

/// Why the event loop ends.
#[derive(Clone, Copy, PartialEq, Eq, Structural, Debug)]
pub enum Termination {
    /// The window was closed or Escape was pressed.
    Closed,
    /// The graphics context could not be brought up.
    SetupFailed(SetupError),
    /// A frame failed beyond recovery.
    FrameFailed(SurfaceFailure),
}

impl Termination {
    /// The status the process ends with: zero after a graceful end and after
    /// nothing else.
    pub open spec fn status(self) -> u8 {
        if self is Closed {
            STATUS_CLOSED
        } else {
            STATUS_FAILED
        }
    }

    pub fn exit_status(&self) -> (status: u8)
        ensures
            status == self.status(),
            status == 0 <==> self is Closed,
    {
        match self {
            Termination::Closed => STATUS_CLOSED,
            Termination::SetupFailed(_) => STATUS_FAILED,
            Termination::FrameFailed(_) => STATUS_FAILED,
        }
    }
}

/// The application: its name, the render state once it is running, and why
/// it leaves the loop once it does.
#[derive(Debug)]
pub struct StateApp {
    state: Option<State>,
    name: String,
    termination: Option<Termination>,
}

/// The application as contracts see it.
pub struct AppView {
    /// The render state; `None` until the window exists.
    pub state: Option<StateView>,
    /// The title the window gets.
    pub name: Seq<char>,
    /// Why the loop ends; `None` while it goes on.
    pub termination: Option<Termination>,
}

impl AppView {
    /// The window and the render state exist.
    pub open spec fn is_running(self) -> bool {
        self.state is Some
    }

    /// The application has asked to leave the loop, or was told that it
    /// cannot go on.
    pub open spec fn exiting(self) -> bool {
        self.termination is Some
    }

    /// Events may be handed to the application: it is running, or it is
    /// leaving the loop and ignores them.
    pub open spec fn takes_events(self) -> bool {
        self.exiting() || self.is_running()
    }

    /// The render state, if there is one, is consistent.
    pub open spec fn wf(self) -> bool {
        self.state matches Some(state) ==> state.wf()
    }

    /// The application after an event, and the action it answers with. An
    /// application that is leaving the loop stays as it is and asks for
    /// nothing. Otherwise the event is answered as its kind calls for, and an
    /// answer of `Exit` is remembered as a graceful end.
    pub open spec fn handle(self, event: Event) -> (AppView, Action)
        recommends
            self.takes_events(),
    {
        if self.exiting() {
            (self, Action::Nothing)
        } else {
            let action = action_for(self.state->0.window, event);
            (
                AppView {
                    state: Some(state_after(self.state->0, event)),
                    name: self.name,
                    termination: if action is Exit {
                        Some(Termination::Closed)
                    } else {
                        None
                    },
                },
                action,
            )
        }
    }

    /// The application after `events`, handled in order, and the actions it
    /// answered with, one for each event.
    pub open spec fn run(self, events: Seq<Event>) -> (AppView, Seq<Action>)
        recommends
            self.takes_events(),
        decreases events.len(),
    {
        if events.len() == 0 {
            (self, Seq::empty())
        } else {
            let (next, action) = self.handle(events[0]);
            let (last, rest) = next.run(events.drop_first());
            (last, seq![action] + rest)
        }
    }
}

/// The resizes of `window` to each of `sizes` in turn.
pub open spec fn resizes(window: WindowId, sizes: Seq<PhysicalSize>) -> Seq<Event> {
    Seq::new(
        sizes.len(),
        |i: int| Event::Window { window_id: window, event: WindowEvent::Resized(sizes[i]) },
    )
}

/// A press of Escape in `window`.
pub open spec fn escape_press(window: WindowId, repeat: bool) -> Event {
    Event::Window {
        window_id: window,
        event: WindowEvent::KeyboardInput(
            KeyEvent { physical_key: KeyCode::Escape, state: ElementState::Pressed, repeat },
        ),
    }
}

/// `count` times nothing.
pub open spec fn nothing(count: nat) -> Seq<Action> {
    Seq::new(count, |i: int| Action::Nothing)
}

/// An application that is leaving the loop asks for nothing more, whatever
/// events still reach it, and does not change.
pub proof fn lemma_exit_is_final(app: AppView, events: Seq<Event>)
    requires
        app.exiting(),
    ensures
        app.run(events).0 == app,
        app.run(events).1 == nothing(events.len()),
    decreases events.len(),
{
    if events.len() > 0 {
        lemma_exit_is_final(app, events.drop_first());
    }
    assert(app.run(events).1 =~= nothing(events.len()));
}

/// Handling the events of two batches one after the other is handling them
/// all in one run.
pub proof fn lemma_run_in_batches(app: AppView, first: Seq<Event>, second: Seq<Event>)
    ensures
        app.run(first + second).0 == app.run(first).0.run(second).0,
        app.run(first + second).1 == app.run(first).1 + app.run(first).0.run(second).1,
    decreases first.len(),
{
    if first.len() == 0 {
        assert(first + second =~= second);
        assert(app.run(first + second).1 =~= app.run(first).1 + app.run(first).0.run(second).1);
    } else {
        let next = app.handle(first[0]).0;
        assert((first + second).drop_first() =~= first.drop_first() + second);
        lemma_run_in_batches(next, first.drop_first(), second);
        assert(app.run(first + second).1 =~= app.run(first).1 + app.run(first).0.run(second).1);
    }
}

/// A run over one event is the handling of that event.
proof fn lemma_run_one(app: AppView, event: Event)
    ensures
        app.run(seq![event]).0 == app.handle(event).0,
        app.run(seq![event]).1 == seq![app.handle(event).1],
{
    reveal_with_fuel(AppView::run, 2);
    let events = seq![event];
    assert(events.drop_first() =~= Seq::<Event>::empty());
    assert(app.run(events).1 =~= seq![app.handle(event).1]);
}

/// A run answers every event with one action. It changes neither the
/// application's name nor its window, keeps a running application running
/// and a consistent one consistent, and never takes back that the
/// application is leaving the loop.
pub proof fn lemma_run_keeps(app: AppView, events: Seq<Event>)
    requires
        app.takes_events(),
    ensures
        app.run(events).1.len() == events.len(),
        app.run(events).0.takes_events(),
        app.run(events).0.name == app.name,
        app.run(events).0.is_running() == app.is_running(),
        app.is_running() ==> app.run(events).0.state->0.window == app.state->0.window,
        app.wf() ==> app.run(events).0.wf(),
        app.exiting() ==> app.run(events).0.exiting(),
    decreases events.len(),
{
    if events.len() > 0 {
        lemma_run_keeps(app.handle(events[0]).0, events.drop_first());
    }
}

/// The action at a position of a run is the answer that the application, as
/// it is after the events before that position, gives to the event there.
pub proof fn lemma_run_at(app: AppView, events: Seq<Event>, i: int)
    requires
        0 <= i < events.len(),
    ensures
        app.run(events).1.len() == events.len(),
        app.run(events).1[i] == app.run(events.take(i)).0.handle(events[i]).1,
        app.run(events.take(i + 1)).0 == app.run(events.take(i)).0.handle(events[i]).0,
{
    let before = events.take(i);
    let here = seq![events[i]];
    let after = events.skip(i + 1);
    assert(events =~= before + here + after);
    assert(events.take(i + 1) =~= before + here);
    lemma_run_in_batches(app, before + here, after);
    lemma_run_in_batches(app, before, here);
    let reached = app.run(before).0;
    lemma_run_one(reached, events[i]);
    lemma_run_lengths(app, before);
    lemma_run_lengths(reached, here);
    lemma_run_lengths(reached.run(here).0, after);
}

/// A run answers every event with one action.
proof fn lemma_run_lengths(app: AppView, events: Seq<Event>)
    ensures
        app.run(events).1.len() == events.len(),
    decreases events.len(),
{
    if events.len() > 0 {
        lemma_run_lengths(app.handle(events[0]).0, events.drop_first());
    }
}

/// Nothing follows an `Exit`: once an event of a run was answered with
/// `Exit`, every later event of the run is answered with `Nothing`, be it a
/// request to redraw, the end of a batch of events or a key.
pub proof fn lemma_nothing_follows_exit(app: AppView, events: Seq<Event>, i: int, j: int)
    requires
        app.takes_events(),
        0 <= i < j < events.len(),
        app.run(events).1[i] is Exit,
    ensures
        app.run(events).1[j] == Action::Nothing,
        app.run(events).0.exiting(),
{
    lemma_run_at(app, events, i);
    lemma_run_at(app, events, j);
    let left = app.run(events.take(i + 1)).0;
    assert(left.exiting());
    let between = events.subrange(i + 1, j);
    assert(events.take(j) =~= events.take(i + 1) + between);
    lemma_run_in_batches(app, events.take(i + 1), between);
    lemma_exit_is_final(left, between);
    assert(events =~= events.take(i + 1) + events.skip(i + 1));
    lemma_run_in_batches(app, events.take(i + 1), events.skip(i + 1));
    lemma_exit_is_final(left, events.skip(i + 1));
}

/// A press of Escape ends the loop at once, wherever in a run it comes: it is
/// answered with `Exit`, and whatever events follow it are answered with
/// nothing any more, neither a render nor a request for a redraw.
pub proof fn lemma_escape_exits(
    app: AppView,
    before: Seq<Event>,
    repeat: bool,
    after: Seq<Event>,
)
    requires
        app.is_running(),
        !app.run(before).0.exiting(),
    ensures
        app.run(before + seq![escape_press(app.state->0.window, repeat)] + after).1 == app.run(
            before,
        ).1 + seq![Action::Exit] + nothing(after.len()),
        app.run(
            before + seq![escape_press(app.state->0.window, repeat)] + after,
        ).0.termination == Some(Termination::Closed),
{
    let escape = seq![escape_press(app.state->0.window, repeat)];
    let reached = app.run(before).0;
    lemma_run_keeps(app, before);
    lemma_run_in_batches(app, before + escape, after);
    lemma_run_in_batches(app, before, escape);
    lemma_run_one(reached, escape_press(app.state->0.window, repeat));
    lemma_exit_is_final(reached.run(escape).0, after);
}

/// The diagnostic is emitted exactly for the presses of Space that reach an
/// application which is not leaving the loop: once for each, repeats
/// included, and for nothing else.
pub proof fn lemma_diagnostic_per_press(app: AppView, events: Seq<Event>, i: int)
    requires
        app.is_running(),
        0 <= i < events.len(),
    ensures
        app.run(events).1[i] is Diagnostic <==> {
            &&& !app.run(events.take(i)).0.exiting()
            &&& is_press(app.state->0.window, KeyCode::Space, events[i])
        },
{
    lemma_run_at(app, events, i);
    lemma_run_keeps(app, events.take(i));
}

/// After any sequence of resizes to sizes with an area, the surface
/// configuration has exactly the extent of the most recent one and is
/// otherwise as it was; each resize called for one reconfiguration.
pub proof fn lemma_resizes_keep_last(app: AppView, sizes: Seq<PhysicalSize>)
    requires
        app.is_running(),
        !app.exiting(),
        sizes.len() > 0,
        forall|i: int| 0 <= i < sizes.len() ==> (#[trigger] sizes[i]).is_positive(),
    ensures
        app.run(resizes(app.state->0.window, sizes)).0.state->0.config
            == app.state->0.config.with_extent(sizes.last()),
        app.run(resizes(app.state->0.window, sizes)).0.state->0.config.width
            == sizes.last().width,
        app.run(resizes(app.state->0.window, sizes)).0.state->0.config.height
            == sizes.last().height,
        app.run(resizes(app.state->0.window, sizes)).0.state->0.size == sizes.last(),
        app.run(resizes(app.state->0.window, sizes)).0.is_running(),
        !app.run(resizes(app.state->0.window, sizes)).0.exiting(),
        app.run(resizes(app.state->0.window, sizes)).1 == Seq::new(
            sizes.len(),
            |i: int| Action::Configure(sizes[i]),
        ),
    decreases sizes.len(),
{
    let events = resizes(app.state->0.window, sizes);
    let next = app.handle(events[0]).0;
    assert(events.drop_first() =~= resizes(next.state->0.window, sizes.drop_first()));
    if sizes.len() == 1 {
        assert(next.run(events.drop_first()).1 =~= Seq::<Action>::empty());
    } else {
        lemma_resizes_keep_last(next, sizes.drop_first());
    }
    assert(app.run(events).1 =~= Seq::new(sizes.len(), |i: int| Action::Configure(sizes[i])));
}

impl View for StateApp {
    type V = AppView;

    closed spec fn view(&self) -> AppView {
        AppView {
            state: match self.state {
                Some(state) => Some(state@),
                None => None,
            },
            name: self.name@,
            termination: self.termination,
        }
    }
}

impl StateApp {
    /// An application named `namae` that has no window yet.
    pub fn new(namae: String) -> (app: Self)
        ensures
            app@.name == namae@,
            !app@.is_running(),
            !app@.exiting(),
            app@.wf(),
    {
        StateApp { state: None, name: namae, termination: None }
    }

    /// The name of the application, which titles its window.
    pub fn name(&self) -> (name: &String)
        ensures
            name@ == self@.name,
    {
        &self.name
    }

    /// Whether the window and the render state exist.
    pub fn running(&self) -> (running: bool)
        ensures
            running == self@.is_running(),
    {
        self.state.is_some()
    }

    /// Whether the application is leaving the loop.
    pub fn exiting(&self) -> (exiting: bool)
        ensures
            exiting == self@.exiting(),
    {
        self.termination.is_some()
    }

    /// Why the application leaves the loop, once it does.
    pub fn termination(&self) -> (termination: Option<Termination>)
        ensures
            termination == self@.termination,
    {
        self.termination
    }

    /// The status the process ends with: that of the reason for which the
    /// application left the loop, and zero where the loop ended without one.
    pub fn exit_status(&self) -> (status: u8)
        ensures
            status == match self@.termination {
                Some(termination) => termination.status(),
                None => STATUS_CLOSED,
            },
    {
        match &self.termination {
            Some(termination) => termination.exit_status(),
            None => STATUS_CLOSED,
        }
    }

    /// The render state of a running application.
    pub fn state(&self) -> (state: Option<&State>)
        ensures
            match state {
                Some(state) => self@.state == Some(state@),
                None => self@.state is None,
            },
    {
        self.state.as_ref()
    }

    /// The application was resumed. The first time, while no window exists,
    /// the window is to be created; later, and once the application is
    /// leaving the loop, there is nothing to do.
    pub fn resumed(&self) -> (action: Action)
        ensures
            action == if self@.exiting() || self@.is_running() {
                Action::Nothing
            } else {
                Action::CreateWindow
            },
    {
        if self.termination.is_some() || self.state.is_some() {
            Action::Nothing
        } else {
            Action::CreateWindow
        }
    }

    /// The window asked for by `resumed` exists: the application starts
    /// running, with a render state for that window, and the surface is to
    /// be configured. An application that is running already, or that is
    /// leaving the loop, stays as it is.
    pub fn window_created(
        &mut self,
        window: WindowId,
        size: PhysicalSize,
        capabilities: SurfaceCapabilities,
    ) -> (action: Action)
        requires
            old(self)@.wf(),
            size.is_positive(),
            capabilities.is_presentable(),
        ensures
            final(self)@.name == old(self)@.name,
            final(self)@.termination == old(self)@.termination,
            final(self)@.wf(),
            old(self)@.exiting() || old(self)@.is_running() ==> {
                &&& action == Action::Nothing
                &&& final(self)@.state == old(self)@.state
            },
            !old(self)@.exiting() && !old(self)@.is_running() ==> {
                &&& action == Action::Configure(size)
                &&& final(self)@.is_running()
                &&& final(self)@.state->0.window == window
                &&& final(self)@.state->0.size == size
                &&& negotiated(size, capabilities, final(self)@.state->0.config)
            },
    {
        if self.termination.is_some() || self.state.is_some() {
            return Action::Nothing;
        }
        self.state = Some(State::new(window, size, capabilities));
        Action::Configure(size)
    }

    /// Handles an event of the window `window_id`: a request to close and a
    /// press of Escape end the loop, a resize is followed, a request to
    /// redraw renders, a press of Space emits the diagnostic. Everything
    /// else, and every event of another window, is ignored. So is every
    /// event that comes once the application is leaving the loop.
    pub fn window_event(&mut self, window_id: WindowId, event: WindowEvent) -> (action: Action)
        requires
            old(self)@.takes_events(),
            old(self)@.wf(),
        ensures
            action == old(self)@.handle(Event::Window { window_id, event }).1,
            final(self)@ == old(self)@.handle(Event::Window { window_id, event }).0,
            old(self)@.exiting() ==> action == Action::Nothing && final(self)@ == old(self)@,
            !old(self)@.exiting() ==> final(self)@.exiting() == (action is Exit),
            final(self)@.wf(),
    {
        if self.termination.is_some() {
            return Action::Nothing;
        }
        let action = match &mut self.state {
            Some(state) => {
                if !same_window(&state.window(), &window_id) {
                    Action::Nothing
                } else {
                    match event {
                        WindowEvent::CloseRequested => Action::Exit,
                        WindowEvent::Resized(physical_size) => {
                            if state.resize(physical_size) {
                                Action::Configure(physical_size)
                            } else {
                                Action::Nothing
                            }
                        },
                        WindowEvent::RedrawRequested => Action::Render,
                        WindowEvent::KeyboardInput(
                            KeyEvent {
                                state: ElementState::Pressed,
                                physical_key: KeyCode::Escape,
                                ..
                            },
                        ) => Action::Exit,
                        WindowEvent::KeyboardInput(
                            KeyEvent {
                                physical_key: KeyCode::Space,
                                state: ElementState::Pressed,
                                ..
                            },
                        ) => Action::Diagnostic,
                        _ => Action::Nothing,
                    }
                }
            },
            None => Action::Nothing,
        };
        if let Action::Exit = action {
            self.termination = Some(Termination::Closed);
        }
        action
    }

    /// All pending events have been handled: another redraw is asked for,
    /// unless the application is leaving the loop.
    pub fn about_to_wait(&self) -> (action: Action)
        requires
            self@.takes_events(),
        ensures
            action == self@.handle(Event::AboutToWait).1,
            action == if self@.exiting() {
                Action::Nothing
            } else {
                Action::RequestRedraw
            },
            !self@.exiting() ==> self@.handle(Event::AboutToWait).0 == self@,
    {
        if self.termination.is_some() {
            Action::Nothing
        } else {
            Action::RequestRedraw
        }
    }

    /// The graphics context could not be brought up: the application leaves
    /// the loop for that reason, unless it is leaving it already.
    pub fn setup_failed(&mut self, error: SetupError) -> (action: Action)
        ensures
            final(self)@.state == old(self)@.state,
            final(self)@.name == old(self)@.name,
            old(self)@.exiting() ==> action == Action::Nothing && final(self)@ == old(self)@,
            !old(self)@.exiting() ==> {
                &&& action == Action::Exit
                &&& final(self)@.termination == Some(Termination::SetupFailed(error))
            },
    {
        if self.termination.is_some() {
            return Action::Nothing;
        }
        self.termination = Some(Termination::SetupFailed(error));
        Action::Exit
    }

    /// A frame failed beyond recovery: the application leaves the loop for
    /// that reason, unless it is leaving it already.
    pub fn frame_failed(&mut self, failure: SurfaceFailure) -> (action: Action)
        ensures
            final(self)@.state == old(self)@.state,
            final(self)@.name == old(self)@.name,
            old(self)@.exiting() ==> action == Action::Nothing && final(self)@ == old(self)@,
            !old(self)@.exiting() ==> {
                &&& action == Action::Exit
                &&& final(self)@.termination == Some(Termination::FrameFailed(failure))
            },
    {
        if self.termination.is_some() {
            return Action::Nothing;
        }
        self.termination = Some(Termination::FrameFailed(failure));
        Action::Exit
    }
}

/// What it takes to set the application up: its name.
pub struct SetupGames {
    pub name: String,
}

impl SetupGames {
    /// Makes the application, which has no window yet.
    pub fn play(self) -> (app: StateApp)
        ensures
            app@.name == self.name@,
            !app@.is_running(),
            !app@.exiting(),
            app@.wf(),
    {
        StateApp::new(self.name)
    }
}

} // verus!
