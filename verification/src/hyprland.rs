//! The backend for the Hyprland compositor.
//!
//! The rotation itself goes through the output-management protocol.
//! Hyprland does not turn touch and tablet input along with the display, so
//! it is told to, through two `hyprctl` keywords.

use crate::classifier::Orientation;
use crate::command::{command_views, Command, CommandView};
use crate::error::Error;
use crate::orientation::AbsoluteOrientation;
use crate::text::{decimal, decimal_text};
use crate::transform::Transform;
use crate::wayland::{known_transform, ClientView, Event, Request, WaylandBackend};
use vstd::prelude::*;

verus! {

/// The index by which Hyprland knows an orientation: the number of
/// clockwise quarter turns.
pub open spec fn transform_idx(kind: AbsoluteOrientation) -> int {
    kind.rotation().quarters()
}

/// The command that sets the Hyprland keyword `keyword` to `idx`.
pub open spec fn keyword_command(keyword: Seq<char>, idx: int) -> CommandView {
    CommandView {
        program: "hyprctl"@,
        args: seq!["keyword"@, keyword, decimal(idx)],
        env: Seq::empty(),
        quiet: true,
    }
}

/// The two commands that turn touch and tablet input to `kind`.
pub open spec fn input_commands(kind: AbsoluteOrientation) -> Seq<CommandView> {
    seq![
        keyword_command("input:touchdevice:transform"@, transform_idx(kind)),
        keyword_command("input:tablet:transform"@, transform_idx(kind)),
    ]
}

/// The Hyprland backend: a protocol client.
pub struct HyprlandBackend {
    wayland_backend: WaylandBackend,
}

impl View for HyprlandBackend {
    type V = ClientView;

    closed spec fn view(&self) -> ClientView {
        self.wayland_backend@
    }
}

impl HyprlandBackend {
    /// Holds of every backend: the protocol client's manager is bound.
    pub open spec fn wf(&self) -> bool {
        self@.manager.is_some()
    }

    pub fn new(wayland_backend: WaylandBackend) -> (backend: Self)
        requires
            wayland_backend.wf(),
        ensures
            backend.wf(),
            backend@ == wayland_backend@,
    {
        HyprlandBackend { wayland_backend }
    }

    /// The index by which Hyprland knows the orientation `kind`: 0 for
    /// normal, 1 for right up, 2 for flipped, 3 for left up.
    pub fn get_transform_idx(kind: AbsoluteOrientation) -> (idx: u8)
        ensures
            idx == transform_idx(kind),
    {
        match kind {
            AbsoluteOrientation::Normal => 0,
            AbsoluteOrientation::RightUp => 1,
            AbsoluteOrientation::Flipped => 2,
            AbsoluteOrientation::LeftUp => 3,
        }
    }

    /// The command that sets one keyword to `idx`, its output discarded.
    fn keyword(keyword: &str, idx: u8) -> (command: Command)
        ensures
            command@ == keyword_command(keyword@, idx as int),
    {
        let mut command = Command::new("hyprctl");
        command.arg("keyword");
        command.arg(keyword);
        let text = decimal_text(idx as i64);
        command.arg(text.as_str());
        command.silence();
        assert(command@.args == seq!["keyword"@, keyword@, decimal(idx as int)]);
        command
    }

    /// Rotates the display to `new_state`; see
    /// `WaylandBackend::apply` for the requests. Where that
    /// does not fail, the commands to run afterwards, in order, are the two
    /// that turn touch and tablet input the same way.
    pub fn apply(&mut self, events: &Vec<Event>, new_state: &Orientation) -> (r: (
        Vec<Request>,
        Result<Vec<Command>, Error>,
    ))
        requires
            old(self).wf(),
        ensures
            final(self).wf(),
            final(self)@ == old(self)@.after_events(events@).after_submit(),
            r.0@ == old(self)@.answers(events@) + old(self)@.after_events(events@).submitted(
                new_state.wayland_state,
            ),
            match old(self)@.after_events(events@).submit_error() {
                Some(e) => r.1 == Err::<Vec<Command>, Error>(e) && e == Error::HeadNotFound,
                None => r.1.is_ok() && command_views(r.1.unwrap()@) == input_commands(
                    new_state.kind,
                ),
            },
    {
        let (requests, outcome) = self.wayland_backend.apply(events, new_state);
        match outcome {
            Ok(()) => {
                let idx = Self::get_transform_idx(new_state.kind);
                let mut commands: Vec<Command> = Vec::new();
                commands.push(Self::keyword("input:touchdevice:transform", idx));
                commands.push(Self::keyword("input:tablet:transform", idx));
                assert(command_views(commands@) == input_commands(new_state.kind));
                (requests, Ok(commands))
            },
            Err(e) => (requests, Err(e)),
        }
    }

    /// The transform of the display; see `WaylandBackend::query`.
    pub fn query(&mut self, events: &Vec<Event>) -> (r: (
        Vec<Request>,
        Result<Transform, Error>,
    ))
        requires
            old(self).wf(),
        ensures
            final(self).wf(),
            final(self)@ == old(self)@.after_events(events@),
            r.0@ == old(self)@.answers(events@),
            match known_transform(final(self)@) {
                Some(transform) => r.1 == Ok::<Transform, Error>(transform),
                None => r.1 == Err::<Transform, Error>(Error::HeadNotFound),
            },
    {
        self.wayland_backend.query(events)
    }
}

} // verus!
