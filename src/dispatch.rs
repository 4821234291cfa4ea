use vstd::prelude::*;

verus! {

/// A key, as far as the viewer tells keys apart.
#[derive(Clone, Copy, Debug, PartialEq, Eq, Structural)]
pub enum Key {
    Escape,
    Other,
}

/// An event delivered by the windowing system to the viewer.
#[derive(Clone, Copy, Debug, PartialEq, Eq, Structural)]
pub enum Event {
    /// The window's inner size changed, in physical pixels.
    Resized { width: u32, height: u32 },
    /// The display's scale factor changed; the window now has this inner size.
    ScaleFactorChanged { width: u32, height: u32 },
    /// The user asked to close the window.
    CloseRequested,
    /// A key was pressed (`pressed`) or released.
    KeyboardInput { key: Key, pressed: bool },
    /// The window's contents have to be drawn again.
    RedrawRequested,
    /// Anything else, including events of other windows.
    Other,
}

/// The dispatcher's state: it runs until it exits, and never runs again.
#[derive(Clone, Copy, Debug, PartialEq, Eq, Structural)]
pub enum LoopState {
    Running,
    Exiting,
}

/// What the event loop has to do in answer to an event.
#[derive(Clone, Copy, Debug, PartialEq, Eq, Structural)]
pub enum Action {
    /// Nothing: wait for the next event.
    Nothing,
    /// Resize the display surface to this size.
    ResizeSurface { width: u32, height: u32 },
    /// Present the current pixel buffer (a failure is ignored).
    Render,
    /// Leave the event loop.
    Exit,
}

/// Whether the event ends the viewer: a close request, or Escape pressed.
pub open spec fn is_exit_event(event: Event) -> bool {
    match event {
        Event::CloseRequested => true,
        Event::KeyboardInput { key, pressed } => key == Key::Escape && pressed,
        _ => false,
    }
}

/// The state after `event` arrives in state `state`.
pub open spec fn next_state(state: LoopState, event: Event) -> LoopState {
    if state == LoopState::Exiting || is_exit_event(event) {
        LoopState::Exiting
    } else {
        LoopState::Running
    }
}

/// The action taken when `event` arrives in state `state`.
pub open spec fn action_of(state: LoopState, event: Event) -> Action {
    match state {
        LoopState::Exiting => Action::Nothing,
        LoopState::Running => if is_exit_event(event) {
            Action::Exit
        } else {
            match event {
                Event::Resized { width, height } => Action::ResizeSurface { width, height },
                Event::ScaleFactorChanged { width, height } => Action::ResizeSurface {
                    width,
                    height,
                },
                Event::RedrawRequested => Action::Render,
                _ => Action::Nothing,
            }
        },
    }
}

/// The state reached from `state` after the events of `events`, in order.
pub open spec fn run(state: LoopState, events: Seq<Event>) -> LoopState
    decreases events.len(),
{
    if events.len() == 0 {
        state
    } else {
        next_state(run(state, events.drop_last()), events.last())
    }
}

/// Handles window events for the viewer, one at a time.
pub struct Dispatcher {
    pub state: LoopState,
}

impl Dispatcher {
    /// A dispatcher in the running state.
    pub fn new() -> (r: Dispatcher)
        ensures
            r.state == LoopState::Running,
    {
        Dispatcher { state: LoopState::Running }
    }

    /// Whether the dispatcher has reached its terminal state.
    pub fn is_exiting(&self) -> (r: bool)
        ensures
            r == (self.state == LoopState::Exiting),
    {
        match self.state {
            LoopState::Exiting => true,
            LoopState::Running => false,
        }
    }

    /// Takes one event: moves to the next state and says what the loop has to do.
    pub fn handle(&mut self, event: Event) -> (r: Action)
        ensures
            final(self).state == next_state(old(self).state, event),
            r == action_of(old(self).state, event),
    {
        match self.state {
            LoopState::Exiting => Action::Nothing,
            LoopState::Running => {
                let exit = match event {
                    Event::CloseRequested => true,
                    Event::KeyboardInput { key: Key::Escape, pressed: true } => true,
                    _ => false,
                };
                if exit {
                    self.state = LoopState::Exiting;
                    Action::Exit
                } else {
                    match event {
                        Event::Resized { width, height } => Action::ResizeSurface { width, height },
                        Event::ScaleFactorChanged { width, height } => Action::ResizeSurface {
                            width,
                            height,
                        },
                        Event::RedrawRequested => Action::Render,
                        _ => Action::Nothing,
                    }
                }
            },
        }
    }
}

/// Running the events of `first` and then those of `second` reaches the state that
/// running all of `first + second` at once reaches.
pub proof fn lemma_run_append(state: LoopState, first: Seq<Event>, second: Seq<Event>)
    ensures
        run(state, first + second) == run(run(state, first), second),
    decreases second.len(),
{
    if second.len() == 0 {
        assert(first + second =~= first);
    } else {
        assert((first + second).drop_last() =~= first + second.drop_last());
        lemma_run_append(state, first, second.drop_last());
    }
}

/// Once exiting, the dispatcher stays exiting, whatever events follow.
pub proof fn lemma_exiting_is_terminal(events: Seq<Event>)
    ensures
        run(LoopState::Exiting, events) == LoopState::Exiting,
    decreases events.len(),
{
    if events.len() > 0 {
        lemma_exiting_is_terminal(events.drop_last());
    }
}

/// A close request, or Escape pressed, brings the dispatcher to its terminal state,
/// whatever events came before it (resizes, redraws or any other) and whatever follow.
pub proof fn lemma_exit_event_terminates(
    state: LoopState,
    before: Seq<Event>,
    exit: Event,
    after: Seq<Event>,
)
    requires
        is_exit_event(exit),
    ensures
        run(state, before.push(exit)) == LoopState::Exiting,
        run(state, before.push(exit) + after) == LoopState::Exiting,
{
    let upto = before.push(exit);
    assert(upto.drop_last() =~= before);
    lemma_run_append(state, upto, after);
    lemma_exiting_is_terminal(after);
}

} // verus!
