//! Key bindings: what the wallpaper does when the window reports an input
//! event.
//!
//! The window loop hands each event over as an [`Event`] and gets back the
//! actions to carry out, in order. After each action it reports how that one
//! went and is told what is left to do: the rest of the list after a success,
//! nothing after a failure.

use vstd::prelude::*;

verus! {

/// The keys that have a binding, and one stand-in for all the others.
#[derive(Clone, Copy, Debug, PartialEq, Eq, Structural)]
pub enum Key {
    Space,
    Return,
    Escape,
    Other,
}

/// What the window says of a key at the time of the event.
#[derive(Clone, Copy, Debug, PartialEq, Eq, Structural)]
pub enum ButtonState {
    /// The key went down in this very frame.
    Pressed,
    /// The key has been down for a while.
    Held,
    /// The key came up in this very frame.
    Released,
    /// The key has been up for a while.
    NotPressed,
}

/// An input event, as far as the bindings care.
#[derive(Clone, Copy, Debug, PartialEq, Eq, Structural)]
pub enum Event {
    /// A key changed or kept its state.
    Key(Key, ButtonState),
    /// Anything else: pointer, focus, gamepad.
    Other,
}

/// One thing for the window loop to do.
#[derive(Clone, Copy, Debug, PartialEq, Eq, Structural)]
pub enum Action {
    /// Replace the mesh on screen by a freshly generated one.
    Regenerate,
    /// Write the frame on screen to an image file.
    Capture,
    /// Close the window.
    Close,
}

/// The bindings: space makes a new mesh; return saves the frame and then
/// makes a new mesh, which shows that the file is written; escape closes the
/// window. A key counts only in the frame in which it goes down.
pub open spec fn bound_actions(event: Event) -> Seq<Action> {
    match event {
        Event::Key(Key::Space, ButtonState::Pressed) => seq![Action::Regenerate],
        Event::Key(Key::Return, ButtonState::Pressed) => seq![Action::Capture, Action::Regenerate],
        Event::Key(Key::Escape, ButtonState::Pressed) => seq![Action::Close],
        _ => Seq::empty(),
    }
}

/// The actions bound to `event`, in the order in which to carry them out.
pub fn actions_for(event: Event) -> (actions: Vec<Action>)
    ensures
        actions@ == bound_actions(event),
{
    let mut actions: Vec<Action> = Vec::new();
    if let Event::Key(key, ButtonState::Pressed) = event {
        match key {
            Key::Space => {
                actions.push(Action::Regenerate);
            },
            Key::Return => {
                actions.push(Action::Capture);
                actions.push(Action::Regenerate);
            },
            Key::Escape => {
                actions.push(Action::Close);
            },
            Key::Other => {},
        }
    }
    assert(actions@ =~= bound_actions(event));
    actions
}

/// What is left to do of `actions` once the one at `done` has been carried
/// out: the actions after it where it succeeded, none where it failed.
pub open spec fn remaining(actions: Seq<Action>, done: int, succeeded: bool) -> Seq<Action> {
    if succeeded {
        actions.subrange(done + 1, actions.len() as int)
    } else {
        Seq::empty()
    }
}

/// What is left to do of `actions` once the one at `done` has been carried
/// out and has or has not succeeded.
pub fn remaining_after(actions: &Vec<Action>, done: usize, succeeded: bool) -> (rest: Vec<Action>)
    requires
        done < actions@.len(),
    ensures
        rest@ == remaining(actions@, done as int, succeeded),
{
    let length = actions.len();
    let mut rest: Vec<Action> = Vec::new();
    if succeeded {
        let mut next: usize = done + 1;
        while next < length
            invariant
                length == actions@.len(),
                done < next <= length,
                rest@ == actions@.subrange(done + 1, next as int),
            decreases length - next,
        {
            rest.push(actions[next]);
            next += 1;
            assert(rest@ =~= actions@.subrange(done + 1, next as int));
        }
    }
    assert(rest@ =~= remaining(actions@, done as int, succeeded));
    rest
}

/// Where saving the frame fails, nothing more is done for that event: no new
/// mesh takes the place of the one on screen, and the window stays open.
pub proof fn failed_capture_ends_the_event(event: Event, step: int)
    requires
        0 <= step < bound_actions(event).len(),
        bound_actions(event)[step] == Action::Capture,
    ensures
        remaining(bound_actions(event), step, false).len() == 0,
        !remaining(bound_actions(event), step, false).contains(Action::Regenerate),
        !remaining(bound_actions(event), step, false).contains(Action::Close),
{
}

/// Where saving the frame succeeds, exactly one thing is left to do: to make
/// a new mesh.
pub proof fn saved_capture_leaves_regeneration(event: Event, step: int)
    requires
        0 <= step < bound_actions(event).len(),
        bound_actions(event)[step] == Action::Capture,
    ensures
        remaining(bound_actions(event), step, true) == seq![Action::Regenerate],
{
    assert(remaining(bound_actions(event), step, true) =~= seq![Action::Regenerate]);
}

/// Step by step the list gets shorter, so the window loop comes to an end;
/// and what is left is always the end of the list it started from.
pub proof fn remaining_is_a_shorter_tail(actions: Seq<Action>, done: int, succeeded: bool)
    requires
        0 <= done < actions.len(),
    ensures
        remaining(actions, done, succeeded).len() < actions.len(),
        succeeded ==> remaining(actions, done, succeeded) == actions.skip(done + 1),
        !succeeded ==> remaining(actions, done, succeeded).len() == 0,
{
    if succeeded {
        assert(remaining(actions, done, succeeded) =~= actions.skip(done + 1));
    }
}

/// Nothing happens unless a key goes down.
pub proof fn only_key_presses_act(event: Event)
    requires
        !(event matches Event::Key(_, ButtonState::Pressed)),
    ensures
        bound_actions(event).len() == 0,
{
}

/// A frame is never saved without a new mesh taking its place right after.
pub proof fn capture_is_followed_by_regeneration(event: Event, step: int)
    requires
        0 <= step < bound_actions(event).len(),
        bound_actions(event)[step] == Action::Capture,
    ensures
        step + 1 < bound_actions(event).len(),
        bound_actions(event)[step + 1] == Action::Regenerate,
{
}

/// Closing the window is never mixed with anything else.
pub proof fn close_stands_alone(event: Event)
    requires
        bound_actions(event).contains(Action::Close),
    ensures
        bound_actions(event) == seq![Action::Close],
        event == Event::Key(Key::Escape, ButtonState::Pressed),
{
}

} // verus!
