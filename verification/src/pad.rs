//! The directional pad: queued button actions drained into user events.
//!
//! Mouse presses on the pad's buttons queue `Action`s; one update cycle
//! drains the queue in order, emitting one `UserEvent` per action and
//! tracking which directional button is held. A release only counts when it
//! matches the held button.

use vstd::prelude::*;

use crate::data::Direction;
use crate::events::UserEvent;

verus! {

/// One queued pad action: a directional press, its release, or the zeroing
/// button.
#[derive(Copy, Clone, Debug, PartialEq, Eq, Structural)]
pub enum Action {
    BeginMove(Direction),
    EndMove(Direction),
    Zero,
}

/// The mathematical state of the pad.
#[verifier::ext_equal]
pub struct PadModel {
    pub pressed_btn: Option<Direction>,
    pub actions: Seq<Action>,
}

/// The event one action emits when drained.
pub open spec fn pad_event_of(a: Action) -> UserEvent {
    match a {
        Action::BeginMove(d) => UserEvent::BeginMove(d),
        Action::EndMove(d) => UserEvent::EndMove(d),
        Action::Zero => UserEvent::Zero,
    }
}

/// What draining one action does to the held button: a press holds its
/// direction, a release lets go, zeroing changes nothing.
pub open spec fn step_pressed(p: Option<Direction>, a: Action) -> Option<Direction> {
    match a {
        Action::BeginMove(d) => Some(d),
        Action::EndMove(d) => None,
        Action::Zero => p,
    }
}

/// The held button after draining a whole queue, in order.
pub open spec fn pressed_after(p: Option<Direction>, actions: Seq<Action>) -> Option<Direction>
    decreases actions.len(),
{
    if actions.len() == 0 {
        p
    } else {
        step_pressed(pressed_after(p, actions.drop_last()), actions.last())
    }
}

/// A mouse press on a pad button queues a directional move, or a zeroing
/// request on the centre button.
pub open spec fn pad_mouse_down(p: PadModel, dir: Option<Direction>) -> PadModel {
    match dir {
        Some(d) => PadModel { actions: p.actions.push(Action::BeginMove(d)), ..p },
        None => PadModel { actions: p.actions.push(Action::Zero), ..p },
    }
}

/// A mouse release queues the end of a move only when it releases the very
/// button that is held; any other release queues nothing.
pub open spec fn pad_mouse_up(p: PadModel, dir: Option<Direction>) -> PadModel {
    match (p.pressed_btn, dir) {
        (Some(current), Some(d)) => if d == current {
            PadModel { actions: p.actions.push(Action::EndMove(d)), ..p }
        } else {
            p
        },
        _ => p,
    }
}

/// The directional pad's state: the held button and the queued actions.
pub struct PadState {
    pub pressed_btn: Option<Direction>,
    pub actions: Vec<Action>,
}

impl View for PadState {
    type V = PadModel;

    open spec fn view(&self) -> PadModel {
        PadModel { pressed_btn: self.pressed_btn, actions: self.actions@ }
    }
}

impl PadState {
    /// A fresh pad: nothing held, nothing queued.
    pub fn new() -> (r: Self)
        ensures
            r@.pressed_btn is None,
            r@.actions == Seq::<Action>::empty(),
    {
        PadState { pressed_btn: None, actions: Vec::new() }
    }

    /// Queues a press on a directional button, or on the centre (zeroing)
    /// button for `None`.
    pub fn mouse_down(&mut self, dir: Option<Direction>)
        ensures
            final(self)@ == pad_mouse_down(old(self)@, dir),
    {
        match dir {
            Some(d) => self.actions.push(Action::BeginMove(d)),
            None => self.actions.push(Action::Zero),
        }
    }

    /// Queues the release of a directional button; only releasing the held
    /// button queues anything.
    pub fn mouse_up(&mut self, dir: Option<Direction>)
        ensures
            final(self)@ == pad_mouse_up(old(self)@, dir),
    {
        if let Some(current) = self.pressed_btn {
            if let Some(d) = dir {
                if d == current {
                    self.actions.push(Action::EndMove(d));
                }
            }
        }
    }

    /// Drains the queue in order: one event per queued action, the held
    /// button tracking presses and releases, and an empty queue afterwards.
    pub fn update(&mut self) -> (events: Vec<UserEvent>)
        ensures
            events@ == old(self)@.actions.map_values(|a: Action| pad_event_of(a)),
            final(self)@.pressed_btn == pressed_after(old(self)@.pressed_btn, old(self)@.actions),
            final(self)@.actions == Seq::<Action>::empty(),
    {
        let ghost queue = self@.actions;
        let mut events: Vec<UserEvent> = Vec::new();
        let mut i: usize = 0;
        let n = self.actions.len();
        while i < n
            invariant
                i <= n,
                n == queue.len(),
                self.actions@ == queue,
                self.pressed_btn == pressed_after(old(self)@.pressed_btn, queue.take(i as int)),
                events@ == queue.take(i as int).map_values(|a: Action| pad_event_of(a)),
            decreases n - i,
        {
            let a = self.actions[i];
            proof {
                assert(queue.take(i + 1).drop_last() =~= queue.take(i as int));
                assert(queue.take(i + 1).last() == queue[i as int]);
                assert(queue.take(i + 1).map_values(|x: Action| pad_event_of(x)) =~= queue.take(
                    i as int,
                ).map_values(|x: Action| pad_event_of(x)).push(pad_event_of(queue[i as int])));
            }
            match a {
                Action::BeginMove(d) => {
                    events.push(UserEvent::BeginMove(d));
                    self.pressed_btn = Some(d);
                },
                Action::EndMove(d) => {
                    events.push(UserEvent::EndMove(d));
                    self.pressed_btn = None;
                },
                Action::Zero => {
                    events.push(UserEvent::Zero);
                },
            }
            i = i + 1;
        }
        proof {
            assert(queue.take(n as int) =~= queue);
        }
        self.actions = Vec::new();
        events
    }
}

} // verus!
