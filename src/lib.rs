use vstd::prelude::*;

pub mod event;
pub mod screen;
pub mod terminal;

use crate::event::{
    exit_requested, is_exit_event, lemma_ignored_event_keeps_signal, signal_of, InputEvent,
};
use crate::screen::{open_commands, render_commands, teardown_commands, Screen, ScreenView};
use crate::terminal::{commands_view, Command};

verus! {

/// Signal that ends or continues the frame loop.
#[derive(Debug, Clone, Copy, PartialEq, Eq, Structural)]
pub enum UpdateResult {
    /// Continue to the next update.
    Continue,
    /// Exit the application.
    Exit,
}

/// One renderable unit of a frame.
#[derive(Debug, Clone, PartialEq, Eq)]
pub enum Element {
    /// Plain text, drawn at the top-left corner.
    Label(String),
}

/// An element with its text as a sequence of characters.
pub enum ElementView {
    Label(Seq<char>),
}

impl View for Element {
    type V = ElementView;

    open spec fn view(&self) -> ElementView {
        match self {
            Element::Label(s) => ElementView::Label(s@),
        }
    }
}

/// The elements of a frame, viewed.
pub open spec fn view_all(v: Seq<Element>) -> Seq<ElementView> {
    v.map_values(|e: Element| e@)
}

/// The signal that ends a tick: `Exit` when the callback asked for it or
/// escape was pressed during the tick.
pub open spec fn tick_signal(callback: UpdateResult, events: Seq<InputEvent>) -> UpdateResult {
    if callback == UpdateResult::Exit || exit_requested(events) {
        UpdateResult::Exit
    } else {
        UpdateResult::Continue
    }
}

/// An event other than a press of escape (another key, focus, mouse, paste,
/// resize), wherever it arrives in a tick, never changes whether the loop
/// goes on after that tick.
pub proof fn lemma_ignored_event_keeps_tick(
    callback: UpdateResult,
    before: Seq<InputEvent>,
    e: InputEvent,
    after: Seq<InputEvent>,
)
    requires
        !is_exit_event(e),
    ensures
        tick_signal(callback, before + seq![e] + after) == tick_signal(callback, before + after),
{
    lemma_ignored_event_keeps_signal(before, e, after);
    let with = before + seq![e] + after;
    assert(exit_requested(with) == (signal_of(with) == UpdateResult::Exit));
}

/// Main application for building TUI programs: the caller's state, the
/// terminal session, and whether the frame loop is still running.
///
/// One tick of the loop: build the frame through `context`, let the caller's
/// callback fill it, drain the input events, then hand the callback's signal,
/// the events and the frame to `end_tick`.
pub struct App<State> {
    state: State,
    screen: Screen,
    running: bool,
}

impl<State> App<State> {
    /// The caller's state.
    pub closed spec fn current_state(&self) -> State {
        self.state
    }

    /// The terminal session.
    pub closed spec fn session(&self) -> ScreenView {
        self.screen@
    }

    /// Whether the loop goes on.
    pub closed spec fn is_running(&self) -> bool {
        self.running
    }

    /// Create a new application with the given state. Its session is open and
    /// has asked for raw mode; its loop is running.
    pub fn new(state: State) -> (app: App<State>)
        ensures
            app.current_state() == state,
            app.is_running(),
            app.session() == (ScreenView { open: true, pending: open_commands() }),
    {
        App { state, screen: Screen::new(), running: true }
    }

    /// The context of one frame: the caller's state and the given, growing,
    /// sequence of elements.
    pub fn context<'a>(&'a mut self, elements: &'a mut Vec<Element>) -> (c: Context<'a, State>)
        ensures
            c.current() == old(self).current_state(),
            c.frame() == view_all(old(elements)@),
            final(self).session() == old(self).session(),
            final(self).is_running() == old(self).is_running(),
    {
        Context { state: &mut self.state, elements }
    }

    /// Ends a tick. The session interprets the drained events and, unless
    /// escape was pressed, queues the frame of the elements; this happens
    /// whatever the callback returned. The loop stops when the callback or the
    /// session signalled `Exit`.
    pub fn end_tick(
        &mut self,
        callback: UpdateResult,
        events: &Vec<InputEvent>,
        elements: &Vec<Element>,
    ) -> (r: UpdateResult)
        ensures
            r == tick_signal(callback, events@),
            final(self).is_running() == (old(self).is_running() && r == UpdateResult::Continue),
            final(self).current_state() == old(self).current_state(),
            final(self).session().open == old(self).session().open,
            final(self).session().pending == if exit_requested(events@) {
                old(self).session().pending
            } else {
                old(self).session().pending + render_commands(view_all(elements@))
            },
    {
        let signal = self.screen.update(events, elements);
        let r = if callback == UpdateResult::Exit || signal == UpdateResult::Exit {
            UpdateResult::Exit
        } else {
            UpdateResult::Continue
        };
        if r == UpdateResult::Exit {
            self.running = false;
        }
        r
    }

    /// Whether the loop goes on.
    pub fn running(&self) -> (r: bool)
        ensures
            r == self.is_running(),
    {
        self.running
    }

    /// The caller's state.
    pub fn state(&self) -> (r: &State)
        ensures
            *r == self.current_state(),
    {
        &self.state
    }

    /// Hands out the commands that the session queued, oldest first.
    pub fn take_commands(&mut self) -> (r: Vec<Command>)
        ensures
            commands_view(r@) == old(self).session().pending,
            final(self).session() == (ScreenView { open: old(self).session().open, pending: Seq::empty() }),
            final(self).current_state() == old(self).current_state(),
            final(self).is_running() == old(self).is_running(),
    {
        self.screen.take_commands()
    }

    /// Closes the session and stops the loop; the session then queues the
    /// commands that restore the terminal, once.
    pub fn close(&mut self)
        ensures
            !final(self).is_running(),
            !final(self).session().open,
            final(self).current_state() == old(self).current_state(),
            final(self).session().pending == if old(self).session().open {
                old(self).session().pending + teardown_commands()
            } else {
                old(self).session().pending
            },
    {
        self.screen.close();
        self.running = false;
    }
}

/// Context for building UI screens: the caller's state, and the elements of
/// the current frame.
pub struct Context<'a, State> {
    pub state: &'a mut State,
    elements: &'a mut Vec<Element>,
}

impl<'a, State> Context<'a, State> {
    /// The elements added so far.
    pub closed spec fn frame(&self) -> Seq<ElementView> {
        view_all(self.elements@)
    }

    /// The caller's state.
    pub closed spec fn current(&self) -> State {
        *self.state
    }

    /// Add a label to the context, after the elements added so far.
    pub fn label(&mut self, label: &str) -> (r: &mut Self)
        ensures
            r.frame() == old(self).frame().push(ElementView::Label(label@)),
            r.current() == old(self).current(),
            *final(self) == *final(r),
    {
        self.elements.push(Element::Label(label.to_string()));
        self
    }
}

} // verus!
