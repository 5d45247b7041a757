//! The input state that scenes read, and how window events change it.
use crate::game::settings::{InputSettings, Key};
use crate::game::GameAction;
use crate::math::scalar::{obeys_scalar_spec, one, zero, Scalar};
use crate::math::minus_one;
use crate::Crash;
use vstd::prelude::*;

verus! {

/// An input axis: its value, the key of its positive direction and the key
/// of its negative direction.
pub type Axis<T> = (T, Key, Key);

/// A window event, as far as input processing reads it.
#[derive(Debug, Clone, Copy, PartialEq, Eq, Structural)]
pub enum InputEvent {
    /// A key went down.
    KeyPress(Key),
    /// A key went up.
    KeyRelease(Key),
    /// The window has a new size.
    Size(u32, u32),
    /// Any other event.
    Other,
}

/// The state of the input axes, the exit request and the time that the last
/// frame took.
#[derive(Debug, PartialEq)]
pub struct Input<T> {
    pub forward: Axis<T>,
    pub right: Axis<T>,
    pub exit: (T, Key),
    pub delta_time: T,
}

/// The input after a key went down: the first binding that names the key
/// takes its value, in the order forward, back, right, left, exit.
pub open spec fn after_press<T: Scalar>(input: Input<T>, key: Key) -> Input<T> {
    if key == input.forward.1 {
        Input { forward: (one::<T>(), input.forward.1, input.forward.2), ..input }
    } else if key == input.forward.2 {
        Input { forward: (minus_one::<T>(), input.forward.1, input.forward.2), ..input }
    } else if key == input.right.1 {
        Input { right: (one::<T>(), input.right.1, input.right.2), ..input }
    } else if key == input.right.2 {
        Input { right: (minus_one::<T>(), input.right.1, input.right.2), ..input }
    } else if key == input.exit.1 {
        Input { exit: (one::<T>(), input.exit.1), ..input }
    } else {
        input
    }
}

/// The input after a key went up: the axis, or the exit request, of the
/// first binding that names the key returns to zero.
pub open spec fn after_release<T: Scalar>(input: Input<T>, key: Key) -> Input<T> {
    if key == input.forward.1 || key == input.forward.2 {
        Input { forward: (zero::<T>(), input.forward.1, input.forward.2), ..input }
    } else if key == input.right.1 || key == input.right.2 {
        Input { right: (zero::<T>(), input.right.1, input.right.2), ..input }
    } else if key == input.exit.1 {
        Input { exit: (zero::<T>(), input.exit.1), ..input }
    } else {
        input
    }
}

/// The input after one event. Only key events change it.
pub open spec fn after_event<T: Scalar>(input: Input<T>, event: InputEvent) -> Input<T> {
    match event {
        InputEvent::KeyPress(key) => after_press(input, key),
        InputEvent::KeyRelease(key) => after_release(input, key),
        InputEvent::Size(_, _) => input,
        InputEvent::Other => input,
    }
}

/// The input after a run of events, and the size of the first resize among
/// them, at which processing stops.
pub open spec fn after_events<T: Scalar>(input: Input<T>, events: Seq<InputEvent>) -> (
    Input<T>,
    Option<(u32, u32)>,
)
    decreases events.len(),
{
    if events.len() == 0 {
        (input, None)
    } else {
        match events[0] {
            InputEvent::Size(w, h) => (input, Some((w, h))),
            event => after_events(after_event(input, event), events.skip(1)),
        }
    }
}

/// How many of the events are taken in by one run of processing: those up
/// to and including the first resize.
pub open spec fn taken(events: Seq<InputEvent>) -> nat
    decreases events.len(),
{
    if events.len() == 0 {
        0
    } else {
        match events[0] {
            InputEvent::Size(_, _) => 1,
            _ => 1 + taken(events.skip(1)),
        }
    }
}

/// How many of the events one run of processing takes in.
pub fn count_taken(events: &Vec<InputEvent>) -> (r: usize)
    ensures
        r == taken(events@),
        r <= events@.len(),
{
    let mut i: usize = 0;
    assert(events@.skip(0) =~= events@);
    while i < events.len()
        invariant
            0 <= i <= events@.len(),
            taken(events@) == i + taken(events@.skip(i as int)),
        decreases events@.len() - i,
    {
        proof {
            assert(events@.skip(i as int)[0] == events@[i as int]);
            assert(events@.skip(i as int).skip(1) =~= events@.skip(i + 1));
        }
        match events[i] {
            InputEvent::Size(_, _) => {
                return i + 1;
            },
            _ => {},
        }
        i += 1;
    }
    assert(events@.skip(i as int).len() == 0);
    i
}

impl<T: Scalar> Input<T> {
    /// The input with the bindings of `settings`, all values at zero.
    pub fn from_settings(settings: &InputSettings) -> (r: Self)
        ensures
            obeys_scalar_spec::<T>() ==> r == (Input {
                forward: (zero::<T>(), settings.forward.0, settings.forward.1),
                right: (zero::<T>(), settings.right.0, settings.right.1),
                exit: (zero::<T>(), settings.exit),
                delta_time: zero::<T>(),
            }),
    {
        Self {
            forward: (T::from(0i8), settings.forward.0, settings.forward.1),
            right: (T::from(0i8), settings.right.0, settings.right.1),
            exit: (T::from(0i8), settings.exit),
            delta_time: T::from(0i8),
        }
    }

    /// Takes one event in. A resize leaves the input as it is and is
    /// returned as an action for the game loop.
    pub fn handle_event(&mut self, event: InputEvent) -> (r: GameAction<T>)
        ensures
            obeys_scalar_spec::<T>() ==> *final(self) == after_event(*old(self), event),
            match event {
                InputEvent::Size(w, h) => r == GameAction::<T>::Resize(w, h),
                _ => r is NoAction,
            },
    {
        match event {
            InputEvent::KeyPress(key) => {
                if key == self.forward.1 {
                    self.forward.0 = T::from(1i8);
                } else if key == self.forward.2 {
                    self.forward.0 = T::from(-1i8);
                } else if key == self.right.1 {
                    self.right.0 = T::from(1i8);
                } else if key == self.right.2 {
                    self.right.0 = T::from(-1i8);
                } else if key == self.exit.1 {
                    self.exit.0 = T::from(1i8);
                }
                GameAction::NoAction
            },
            InputEvent::KeyRelease(key) => {
                if key == self.forward.1 || key == self.forward.2 {
                    self.forward.0 = T::from(0i8);
                } else if key == self.right.1 || key == self.right.2 {
                    self.right.0 = T::from(0i8);
                } else if key == self.exit.1 {
                    self.exit.0 = T::from(0i8);
                }
                GameAction::NoAction
            },
            InputEvent::Size(w, h) => GameAction::Resize(w, h),
            InputEvent::Other => GameAction::NoAction,
        }
    }

    /// Takes the pending events in, in order, up to and including the first
    /// resize, which is returned as the action for the game loop.
    pub fn process(&mut self, events: &Vec<InputEvent>) -> (r: Result<GameAction<T>, Crash>)
        ensures
            r is Ok,
            obeys_scalar_spec::<T>() ==> *final(self) == after_events(*old(self), events@).0,
            match after_events(*old(self), events@).1 {
                Some((w, h)) => r->Ok_0 == GameAction::<T>::Resize(w, h),
                None => r->Ok_0 is NoAction,
            },
    {
        let ghost mut model = *self;
        assert(events@.skip(0) =~= events@);
        let mut i: usize = 0;
        while i < events.len()
            invariant
                0 <= i <= events@.len(),
                after_events(*old(self), events@) == after_events(model, events@.skip(i as int)),
                obeys_scalar_spec::<T>() ==> *self == model,
            decreases events@.len() - i,
        {
            let event = events[i];
            proof {
                assert(events@.skip(i as int)[0] == event);
                assert(events@.skip(i as int).skip(1) =~= events@.skip(i + 1));
                model = after_event(model, event);
            }
            match self.handle_event(event) {
                GameAction::Resize(w, h) => {
                    return Ok(GameAction::Resize(w, h));
                },
                _ => {},
            }
            i += 1;
        }
        assert(events@.skip(i as int).len() == 0);
        Ok(GameAction::NoAction)
    }

    /// Takes events in from the front of a queue, as `process` does, and
    /// leaves in the queue the events after the first resize, for the next run.
    pub fn process_queue(&mut self, queue: &mut Vec<InputEvent>) -> (r: Result<
        GameAction<T>,
        Crash,
    >)
        ensures
            r is Ok,
            obeys_scalar_spec::<T>() ==> *final(self) == after_events(*old(self), old(queue)@).0,
            match after_events(*old(self), old(queue)@).1 {
                Some((w, h)) => r->Ok_0 == GameAction::<T>::Resize(w, h),
                None => r->Ok_0 is NoAction,
            },
            final(queue)@ == old(queue)@.skip(taken(old(queue)@) as int),
    {
        let r = self.process(queue);
        let n = count_taken(queue);
        let rest = queue.split_off(n);
        *queue = rest;
        assert(queue@ =~= old(queue)@.skip(n as int));
        r
    }
}

} // verus!
