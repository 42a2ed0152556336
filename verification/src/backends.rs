//! What all display backends have in common.
//!
//! A backend is handed what was read on its behalf (events from the
//! compositor's socket, the output of a tool) and answers with what is to
//! be sent and run. It never reads or writes anything itself.

use crate::classifier::Orientation;
use crate::command::{command_views, Command, CommandView};
use crate::error::Error;
use crate::hyprland::{input_commands, HyprlandBackend};
use crate::sway::{described_inputs, keyboard_commands_for, keyboard_word, keyboards_among, SwayLoop};
use crate::text::lines_of;
use crate::transform::Transform;
use crate::wayland::{known_transform, Event, Request, WaylandBackend};
use crate::xorg::{listed_rotation, output_pattern, rotation_commands, XorgBackend};
use vstd::prelude::*;

verus! {

/// What was read on a backend's behalf since it was last called.
pub struct BackendInput {
    /// The events read from the compositor's socket, in order.
    pub events: Vec<Event>,
    /// The output of the tool that the backend relies on: the listing of
    /// `xrandr` for X, sway's description of its input devices for sway.
    pub tool_output: String,
}

/// What a backend wants done, in this order: the requests sent and
/// flushed, then the commands run, each to its end before the next.
pub struct Actions {
    pub requests: Vec<Request>,
    pub commands: Vec<Command>,
}

pub trait DisplayManager {
    /// Holds of a backend that is fit for use.
    spec fn valid(&self) -> bool;

    /// Change the orientation of the target display.
    fn change_rotation_state(&mut self, input: &BackendInput, new_state: &Orientation) -> (r: (
        Actions,
        Result<(), Error>,
    ))
        requires
            old(self).valid(),
        ensures
            final(self).valid(),
    ;

    /// Get the current transformation of the target display.
    fn get_rotation_state(&mut self, input: &BackendInput) -> (r: (Actions, Result<Transform, Error>))
        requires
            old(self).valid(),
        ensures
            final(self).valid(),
            r.0.commands@.len() == 0,
    ;
}

impl DisplayManager for WaylandBackend {
    open spec fn valid(&self) -> bool {
        self.wf()
    }

    fn change_rotation_state(&mut self, input: &BackendInput, new_state: &Orientation) -> (r: (
        Actions,
        Result<(), Error>,
    ))
        ensures
            final(self)@ == old(self)@.after_events(input.events@).after_submit(),
            r.0.requests@ == old(self)@.answers(input.events@) + old(self)@.after_events(
                input.events@,
            ).submitted(new_state.wayland_state),
            r.0.commands@.len() == 0,
            match old(self)@.after_events(input.events@).submit_error() {
                Some(e) => r.1 == Err::<(), Error>(e) && e == Error::HeadNotFound,
                None => r.1 == Ok::<(), Error>(()),
            },
    {
        let (requests, outcome) = self.apply(&input.events, new_state);
        (Actions { requests, commands: Vec::new() }, outcome)
    }

    fn get_rotation_state(&mut self, input: &BackendInput) -> (r: (Actions, Result<Transform, Error>))
        ensures
            final(self)@ == old(self)@.after_events(input.events@),
            r.0.requests@ == old(self)@.answers(input.events@),
            match known_transform(final(self)@) {
                Some(transform) => r.1 == Ok::<Transform, Error>(transform),
                None => r.1 == Err::<Transform, Error>(Error::HeadNotFound),
            },
    {
        let (requests, outcome) = self.query(&input.events);
        (Actions { requests, commands: Vec::new() }, outcome)
    }
}

impl DisplayManager for HyprlandBackend {
    open spec fn valid(&self) -> bool {
        self.wf()
    }

    fn change_rotation_state(&mut self, input: &BackendInput, new_state: &Orientation) -> (r: (
        Actions,
        Result<(), Error>,
    ))
        ensures
            final(self)@ == old(self)@.after_events(input.events@).after_submit(),
            r.0.requests@ == old(self)@.answers(input.events@) + old(self)@.after_events(
                input.events@,
            ).submitted(new_state.wayland_state),
            match old(self)@.after_events(input.events@).submit_error() {
                Some(e) => r.1 == Err::<(), Error>(e) && e == Error::HeadNotFound
                    && r.0.commands@.len() == 0,
                None => r.1 == Ok::<(), Error>(()) && command_views(r.0.commands@)
                    == input_commands(new_state.kind),
            },
    {
        let (requests, outcome) = self.apply(&input.events, new_state);
        match outcome {
            Ok(commands) => (Actions { requests, commands }, Ok(())),
            Err(e) => (Actions { requests, commands: Vec::new() }, Err(e)),
        }
    }

    fn get_rotation_state(&mut self, input: &BackendInput) -> (r: (Actions, Result<Transform, Error>))
        ensures
            final(self)@ == old(self)@.after_events(input.events@),
            r.0.requests@ == old(self)@.answers(input.events@),
            match known_transform(final(self)@) {
                Some(transform) => r.1 == Ok::<Transform, Error>(transform),
                None => r.1 == Err::<Transform, Error>(Error::HeadNotFound),
            },
    {
        let (requests, outcome) = self.query(&input.events);
        (Actions { requests, commands: Vec::new() }, outcome)
    }
}

/// What the sway backend runs after a rotation to `new_state` that did not
/// fail: nothing where it does not manage keyboards, else one command for
/// each keyboard that the description of the input devices lists. There is
/// none where the description cannot be read.
pub open spec fn sway_commands(manages_keyboard: bool, new_state: Orientation, raw: Seq<char>)
    -> Option<Seq<CommandView>> {
    if !manages_keyboard {
        Some(Seq::empty())
    } else {
        match described_inputs(raw) {
            Some(inputs) => match keyboards_among(inputs, inputs.len() as int) {
                Some(keyboards) => Some(
                    keyboard_commands_for(keyboards, keyboard_word(new_state.kind)),
                ),
                None => None,
            },
            None => None,
        }
    }
}

impl DisplayManager for SwayLoop {
    open spec fn valid(&self) -> bool {
        self.wf()
    }

    /// The rotation goes through the protocol first. The keyboards follow
    /// only where that did not fail; their failure, `ParseFailure`, leaves
    /// the requests of the rotation in place. Here the description of the
    /// input devices has to be at hand before the call. Whoever wants the
    /// requests on the wire before sway is asked for it calls `tick`, sends,
    /// and calls `keyboard_commands` then.
    fn change_rotation_state(&mut self, input: &BackendInput, new_state: &Orientation) -> (r: (
        Actions,
        Result<(), Error>,
    ))
        ensures
            final(self)@ == old(self)@.after_events(input.events@).after_submit(),
            final(self).manages_keyboard() == old(self).manages_keyboard(),
            r.0.requests@ == old(self)@.answers(input.events@) + old(self)@.after_events(
                input.events@,
            ).submitted(new_state.wayland_state),
            match old(self)@.after_events(input.events@).submit_error() {
                Some(e) => r.1 == Err::<(), Error>(e) && e == Error::HeadNotFound
                    && r.0.commands@.len() == 0,
                None => match sway_commands(
                    old(self).manages_keyboard(),
                    *new_state,
                    input.tool_output@,
                ) {
                    Some(commands) => r.1 == Ok::<(), Error>(()) && command_views(r.0.commands@)
                        == commands,
                    None => r.1 == Err::<(), Error>(Error::ParseFailure) && r.0.commands@.len()
                        == 0,
                },
            },
    {
        let (requests, outcome) = self.tick(&input.events, new_state);
        match outcome {
            Ok(()) => match self.keyboard_commands(new_state, input.tool_output.as_str()) {
                Ok(commands) => {
                    assert(!self.manages_keyboard() ==> command_views(commands@)
                        == Seq::<CommandView>::empty());
                    (Actions { requests, commands }, Ok(()))
                },
                Err(e) => (Actions { requests, commands: Vec::new() }, Err(e)),
            },
            Err(e) => (Actions { requests, commands: Vec::new() }, Err(e)),
        }
    }

    fn get_rotation_state(&mut self, input: &BackendInput) -> (r: (Actions, Result<Transform, Error>))
        ensures
            final(self)@ == old(self)@.after_events(input.events@),
            final(self).manages_keyboard() == old(self).manages_keyboard(),
            r.0.requests@ == old(self)@.answers(input.events@),
            match known_transform(final(self)@) {
                Some(transform) => r.1 == Ok::<Transform, Error>(transform),
                None => r.1 == Err::<Transform, Error>(Error::HeadNotFound),
            },
    {
        let (requests, outcome) = self.query(&input.events);
        (Actions { requests, commands: Vec::new() }, outcome)
    }
}

impl DisplayManager for XorgBackend {
    open spec fn valid(&self) -> bool {
        true
    }

    fn change_rotation_state(&mut self, input: &BackendInput, new_state: &Orientation) -> (r: (
        Actions,
        Result<(), Error>,
    ))
        ensures
            final(self).display() == old(self).display(),
            final(self).touchscreen_names() == old(self).touchscreen_names(),
            r.0.requests@.len() == 0,
            command_views(r.0.commands@) == rotation_commands(
                old(self).touchscreen_names(),
                *new_state,
            ),
            r.1 == Ok::<(), Error>(()),
    {
        let commands = self.apply(new_state);
        (Actions { requests: Vec::new(), commands }, Ok(()))
    }

    fn get_rotation_state(&mut self, input: &BackendInput) -> (r: (Actions, Result<Transform, Error>))
        ensures
            final(self).display() == old(self).display(),
            final(self).touchscreen_names() == old(self).touchscreen_names(),
            r.0.requests@.len() == 0,
            match listed_rotation(
                output_pattern(old(self).display()),
                lines_of(input.tool_output@),
                0,
            ) {
                Some(transform) => r.1 == Ok::<Transform, Error>(transform),
                None => r.1 == Err::<Transform, Error>(Error::ParseFailure),
            },
    {
        let outcome = self.query(input.tool_output.as_str());
        (Actions { requests: Vec::new(), commands: Vec::new() }, outcome)
    }
}

} // verus!
