//! Which callback of the game answers which event of the window system, and
//! whether the main loop goes on afterwards. The loop itself, which polls
//! the events and calls the callbacks, belongs to the caller.

use vstd::prelude::*;

verus! {

/// Key code of the escape key.
pub const ESCAPE: i32 = 27;

/// An event of the window system, as far as the main loop tells events apart.
#[derive(Clone, Copy, Debug, PartialEq, Eq, Structural)]
pub enum Event {
    Quit,
    /// A key went down; some keys have no code.
    KeyDown { keycode: Option<i32> },
    /// A key came up; some keys have no code.
    KeyUp { keycode: Option<i32> },
    MouseButtonDown,
    MouseButtonUp,
    MouseMotion,
    MouseWheel,
    ControllerButtonDown,
    ControllerButtonUp,
    ControllerAxisMotion,
    /// The window gained the input focus.
    FocusGained,
    /// The window lost the input focus.
    FocusLost,
    /// Any other event.
    Other,
}

/// What the main loop does about an event.
#[derive(Clone, Copy, Debug, PartialEq, Eq, Structural)]
pub enum Reaction {
    /// Ask the game whether to go on: its answer decides.
    QuitEvent,
    /// Tell the context to quit.
    Quit,
    KeyDownEvent { keycode: i32 },
    KeyUpEvent { keycode: i32 },
    MouseButtonDownEvent,
    MouseButtonUpEvent,
    MouseMotionEvent,
    MouseWheelEvent,
    ControllerButtonDownEvent,
    ControllerButtonUpEvent,
    ControllerAxisEvent,
    FocusEvent { gained: bool },
    /// The event is dropped.
    Nothing,
}

impl Event {
    /// The reaction to an event: each kind of event has its callback, but
    /// the escape key going down quits, a key without a code is dropped,
    /// and so is every event that the loop does not know.
    pub open spec fn reaction(self) -> Reaction {
        match self {
            Event::Quit => Reaction::QuitEvent,
            Event::KeyDown { keycode: Some(key) } => if key == ESCAPE {
                Reaction::Quit
            } else {
                Reaction::KeyDownEvent { keycode: key }
            },
            Event::KeyUp { keycode: Some(key) } => Reaction::KeyUpEvent { keycode: key },
            Event::MouseButtonDown => Reaction::MouseButtonDownEvent,
            Event::MouseButtonUp => Reaction::MouseButtonUpEvent,
            Event::MouseMotion => Reaction::MouseMotionEvent,
            Event::MouseWheel => Reaction::MouseWheelEvent,
            Event::ControllerButtonDown => Reaction::ControllerButtonDownEvent,
            Event::ControllerButtonUp => Reaction::ControllerButtonUpEvent,
            Event::ControllerAxisMotion => Reaction::ControllerAxisEvent,
            Event::FocusGained => Reaction::FocusEvent { gained: true },
            Event::FocusLost => Reaction::FocusEvent { gained: false },
            _ => Reaction::Nothing,
        }
    }
}

/// Decides what the main loop does about `event`.
pub fn dispatch(event: Event) -> (reaction: Reaction)
    ensures
        reaction == event.reaction(),
{
    match event {
        Event::Quit => Reaction::QuitEvent,
        Event::KeyDown { keycode } => match keycode {
            Some(key) => if key == ESCAPE {
                Reaction::Quit
            } else {
                Reaction::KeyDownEvent { keycode: key }
            },
            None => Reaction::Nothing,
        },
        Event::KeyUp { keycode } => match keycode {
            Some(key) => Reaction::KeyUpEvent { keycode: key },
            None => Reaction::Nothing,
        },
        Event::MouseButtonDown => Reaction::MouseButtonDownEvent,
        Event::MouseButtonUp => Reaction::MouseButtonUpEvent,
        Event::MouseMotion => Reaction::MouseMotionEvent,
        Event::MouseWheel => Reaction::MouseWheelEvent,
        Event::ControllerButtonDown => Reaction::ControllerButtonDownEvent,
        Event::ControllerButtonUp => Reaction::ControllerButtonUpEvent,
        Event::ControllerAxisMotion => Reaction::ControllerAxisEvent,
        Event::FocusGained => Reaction::FocusEvent { gained: true },
        Event::FocusLost => Reaction::FocusEvent { gained: false },
        Event::Other => Reaction::Nothing,
    }
}

/// Whether the main loop goes round again.
#[derive(Clone, Copy, Debug, PartialEq, Eq, Structural)]
pub struct MainLoop {
    pub continuing: bool,
}

impl MainLoop {
    /// A loop that has just been entered goes on.
    pub fn new() -> (main_loop: MainLoop)
        ensures
            main_loop.continuing,
    {
        MainLoop { continuing: true }
    }

    /// The loop after a reaction was carried out, where `answer` is what
    /// the game said to being asked whether to go on, if it was asked.
    pub open spec fn after(self, reaction: Reaction, answer: bool) -> MainLoop {
        if reaction == Reaction::QuitEvent {
            MainLoop { continuing: answer }
        } else {
            self
        }
    }

    /// Takes note of a reaction that was carried out: only the game's
    /// answer to a quit event changes whether the loop goes on.
    pub fn settle(&mut self, reaction: Reaction, answer: bool)
        ensures
            *final(self) == old(self).after(reaction, answer),
    {
        match reaction {
            Reaction::QuitEvent => {
                self.continuing = answer;
            },
            _ => {},
        }
    }
}

/// No event but a request to quit stops the loop, and the escape key is
/// never handed to the game.
pub proof fn only_quit_events_stop_the_loop(main_loop: MainLoop, event: Event, answer: bool)
    ensures
        event != Event::Quit ==> main_loop.after(event.reaction(), answer) == main_loop,
        event == Event::Quit ==> main_loop.after(event.reaction(), answer).continuing == answer,
        event.reaction() != (Reaction::KeyDownEvent { keycode: ESCAPE }),
{
}

} // verus!
