//! The backend for the sway compositor.
//!
//! The rotation itself goes through the output-management protocol. On top
//! of it, sway is told over its own IPC to stop delivering keyboard events
//! while the display is rotated, and to deliver them again in normal
//! orientation.

use crate::classifier::Orientation;
use crate::command::{command_views, texts, Command, CommandView};
use crate::error::Error;
use crate::orientation::AbsoluteOrientation;
use crate::text::same_text;
use crate::transform::Transform;
use crate::wayland::{known_transform, ClientView, Event, Request, WaylandBackend};
use vstd::prelude::*;
use vstd::string::StringExecFns;

verus! {

/// One input device, as sway describes it.
#[derive(Clone, Debug)]
pub struct SwayInput {
    /// The device's type, where the description gives one as a string.
    pub kind: Option<String>,
    /// The device's identifier, in JSON notation.
    pub identifier: String,
}

/// One output, as sway describes it.
#[derive(Clone, Debug)]
pub struct SwayOutput {
    pub name: String,
    pub transform: String,
}

/// What sway's description of its input devices holds: for each device, in
/// order, its type where it is a string, and its identifier in JSON
/// notation. There is none where the description is no JSON array.
pub uninterp spec fn described_inputs(raw: Seq<char>) -> Option<
    Seq<(Option<Seq<char>>, Seq<char>)>,
>;

/// The type and identifier of each of `inputs`, as characters.
pub open spec fn input_texts(inputs: Seq<SwayInput>) -> Seq<(Option<Seq<char>>, Seq<char>)> {
    Seq::new(
        inputs.len(),
        |i: int|
            (
                match inputs[i].kind {
                    Some(kind) => Some(kind@),
                    None => None,
                },
                inputs[i].identifier@,
            ),
    )
}

/// Calls `serde_json::from_str` for a list of `serde_json::Value`, and on
/// each value the index operator with the keys `type` and `identifier`,
/// `Value::as_str` on the former and `to_string` on the latter. The contract
/// only gives the result its name: it is the same for the same text.
#[verifier::external_body]
fn parse_inputs(raw: &str) -> (inputs: Option<Vec<SwayInput>>)
    ensures
        match inputs {
            Some(list) => described_inputs(raw@) == Some(input_texts(list@)),
            None => described_inputs(raw@).is_none(),
        },
{
    match serde_json::from_str::<Vec<serde_json::Value>>(raw) {
        Ok(values) => Some(
            values.iter().map(
                |v|
                    SwayInput {
                        kind: v["type"].as_str().map(|s| s.to_string()),
                        identifier: v["identifier"].to_string(),
                    },
            ).collect(),
        ),
        Err(_) => None,
    }
}

/// The identifiers of the keyboards among the first `n` of `inputs`. There
/// are none where one of those devices has no type.
pub open spec fn keyboards_among(inputs: Seq<(Option<Seq<char>>, Seq<char>)>, n: int) -> Option<
    Seq<Seq<char>>,
>
    decreases n,
{
    if n <= 0 {
        Some(Seq::empty())
    } else {
        match (keyboards_among(inputs, n - 1), inputs[n - 1].0) {
            (Some(found), Some(kind)) => if kind == "keyboard"@ {
                Some(found.push(inputs[n - 1].1))
            } else {
                Some(found)
            },
            _ => None,
        }
    }
}

/// The word that turns the delivery of events on or off.
pub open spec fn keyboard_word(kind: AbsoluteOrientation) -> Seq<char> {
    if kind == AbsoluteOrientation::Normal {
        "enabled"@
    } else {
        "disabled"@
    }
}

/// The command that turns event delivery of one keyboard on or off.
pub open spec fn keyboard_command(keyboard: Seq<char>, word: Seq<char>) -> CommandView {
    CommandView {
        program: "swaymsg"@,
        args: seq!["input"@, keyboard, "events"@, word],
        env: Seq::empty(),
        quiet: false,
    }
}

/// The commands for all of `keyboards`, in order.
pub open spec fn keyboard_commands_for(keyboards: Seq<Seq<char>>, word: Seq<char>) -> Seq<
    CommandView,
> {
    Seq::new(keyboards.len(), |i: int| keyboard_command(keyboards[i], word))
}

/// The transform of the output named `display` among `outputs`, looking
/// from `from` on: that of the first output of that name.
pub open spec fn transform_of_output(outputs: Seq<SwayOutput>, display: Seq<char>, from: int)
    -> Option<Seq<char>>
    decreases outputs.len() - from,
{
    if from < 0 || from >= outputs.len() {
        None
    } else if outputs[from].name@ == display {
        Some(outputs[from].transform@)
    } else {
        transform_of_output(outputs, display, from + 1)
    }
}

/// The sway backend: a protocol client, and whether keyboards are managed.
pub struct SwayLoop {
    wayland_loop: WaylandBackend,
    manage_keyboard: bool,
}

impl View for SwayLoop {
    type V = ClientView;

    closed spec fn view(&self) -> ClientView {
        self.wayland_loop@
    }
}

impl SwayLoop {
    /// Whether the backend turns keyboards off in rotated orientations.
    pub closed spec fn manages_keyboard(&self) -> bool {
        self.manage_keyboard
    }

    /// Holds of every backend: the protocol client's manager is bound.
    pub open spec fn wf(&self) -> bool {
        self@.manager.is_some()
    }

    pub fn new(wayland_loop: WaylandBackend, manage_keyboard: bool) -> (backend: SwayLoop)
        requires
            wayland_loop.wf(),
        ensures
            backend.wf(),
            backend@ == wayland_loop@,
            backend.manages_keyboard() == manage_keyboard,
    {
        SwayLoop { wayland_loop, manage_keyboard }
    }

    /// Whether the backend turns keyboards off in rotated orientations.
    pub fn manage_keyboard(&self) -> (managed: bool)
        ensures
            managed == self.manages_keyboard(),
    {
        self.manage_keyboard
    }

    /// Takes note of the events read from the socket; see
    /// `WaylandBackend::read_socket`.
    pub fn tick_always(&mut self, events: &Vec<Event>) -> (requests: Vec<Request>)
        requires
            old(self).wf(),
        ensures
            final(self).wf(),
            final(self).manages_keyboard() == old(self).manages_keyboard(),
            final(self)@ == old(self)@.after_events(events@),
            requests@ == old(self)@.answers(events@),
    {
        self.wayland_loop.read_socket(events)
    }

    /// Rotates the display; see `WaylandBackend::apply`. The
    /// keyboards are the business of `keyboard_commands`, whose failure
    /// leaves the rotation in place.
    pub fn tick(&mut self, events: &Vec<Event>, new_state: &Orientation) -> (r: (
        Vec<Request>,
        Result<(), Error>,
    ))
        requires
            old(self).wf(),
        ensures
            final(self).wf(),
            final(self).manages_keyboard() == old(self).manages_keyboard(),
            final(self)@ == old(self)@.after_events(events@).after_submit(),
            r.0@ == old(self)@.answers(events@) + old(self)@.after_events(events@).submitted(
                new_state.wayland_state,
            ),
            match old(self)@.after_events(events@).submit_error() {
                Some(e) => r.1 == Err::<(), Error>(e) && e == Error::HeadNotFound,
                None => r.1 == Ok::<(), Error>(()),
            },
    {
        self.wayland_loop.apply(events, new_state)
    }

    /// The transform of the display; see `WaylandBackend::query`.
    pub fn query(&mut self, events: &Vec<Event>) -> (r: (Vec<Request>, Result<Transform, Error>))
        requires
            old(self).wf(),
        ensures
            final(self).wf(),
            final(self).manages_keyboard() == old(self).manages_keyboard(),
            final(self)@ == old(self)@.after_events(events@),
            r.0@ == old(self)@.answers(events@),
            match known_transform(final(self)@) {
                Some(transform) => r.1 == Ok::<Transform, Error>(transform),
                None => r.1 == Err::<Transform, Error>(Error::HeadNotFound),
            },
    {
        self.wayland_loop.query(events)
    }

    /// The identifiers of the keyboards among `inputs`, in order. There is
    /// no result where a device has no type.
    pub fn get_keyboards(inputs: &Vec<SwayInput>) -> (keyboards: Option<Vec<String>>)
        ensures
            match keyboards {
                Some(found) => keyboards_among(input_texts(inputs@), inputs@.len() as int)
                    == Some(texts(found@)),
                None => keyboards_among(input_texts(inputs@), inputs@.len() as int).is_none(),
            },
    {
        let mut keyboards: Vec<String> = Vec::new();
        let ghost all = input_texts(inputs@);
        assert(texts(keyboards@) == Seq::<Seq<char>>::empty());
        let mut i: usize = 0;
        while i < inputs.len()
            invariant
                i <= inputs.len(),
                all == input_texts(inputs@),
                keyboards_among(all, i as int) == Some(texts(keyboards@)),
            decreases inputs.len() - i,
        {
            match &inputs[i].kind {
                Some(kind) => {
                    if same_text(kind.as_str(), "keyboard") {
                        let ghost before = texts(keyboards@);
                        keyboards.push(inputs[i].identifier.clone());
                        assert(texts(keyboards@) == before.push(inputs@[i as int].identifier@));
                    }
                },
                None => {
                    proof {
                        lemma_keyboards_stay_unknown(all, i + 1, inputs@.len() as int);
                    }
                    return None;
                },
            }
            i = i + 1;
        }
        Some(keyboards)
    }

    /// The commands that turn the keyboards on, for the normal orientation,
    /// or off, for any other: one for each keyboard that `raw_inputs`, sway's
    /// description of its input devices, lists. A backend that does not
    /// manage keyboards runs nothing. The result is `ParseFailure` where the
    /// description cannot be read or a device in it has no type.
    pub fn keyboard_commands(&self, new_state: &Orientation, raw_inputs: &str) -> (r: Result<
        Vec<Command>,
        Error,
    >)
        ensures
            !self.manages_keyboard() ==> r.is_ok() && r.unwrap()@.len() == 0,
            self.manages_keyboard() ==> (match described_inputs(raw_inputs@) {
                Some(inputs) => match keyboards_among(inputs, inputs.len() as int) {
                    Some(keyboards) => r.is_ok() && command_views(r.unwrap()@)
                        == keyboard_commands_for(keyboards, keyboard_word(new_state.kind)),
                    None => r == Err::<Vec<Command>, Error>(Error::ParseFailure),
                },
                None => r == Err::<Vec<Command>, Error>(Error::ParseFailure),
            }),
    {
        if !self.manage_keyboard {
            return Ok(Vec::new());
        }
        let inputs = match parse_inputs(raw_inputs) {
            Some(inputs) => inputs,
            None => {
                return Err(Error::ParseFailure);
            },
        };
        let keyboards = match Self::get_keyboards(&inputs) {
            Some(keyboards) => keyboards,
            None => {
                return Err(Error::ParseFailure);
            },
        };
        let keyboard_state = match new_state.kind {
            AbsoluteOrientation::Normal => "enabled",
            _ => "disabled",
        };
        let mut commands: Vec<Command> = Vec::new();
        let ghost wanted = keyboard_commands_for(texts(keyboards@), keyboard_state@);
        assert(command_views(commands@) == wanted.take(0));
        let mut i: usize = 0;
        while i < keyboards.len()
            invariant
                i <= keyboards.len(),
                wanted == keyboard_commands_for(texts(keyboards@), keyboard_state@),
                command_views(commands@) == wanted.take(i as int),
            decreases keyboards.len() - i,
        {
            let mut command = Command::new("swaymsg");
            command.arg("input");
            command.arg(keyboards[i].as_str());
            command.arg("events");
            command.arg(keyboard_state);
            assert(command@.args == seq![
                "input"@,
                keyboards@[i as int]@,
                "events"@,
                keyboard_state@,
            ]);
            let ghost before = command_views(commands@);
            commands.push(command);
            assert(command_views(commands@) == before.push(command@));
            assert(wanted.take(i + 1) == wanted.take(i as int).push(wanted[i as int]));
            i = i + 1;
        }
        assert(wanted.take(keyboards.len() as int) == wanted);
        Ok(commands)
    }

    /// The transform that sway reports for `display` in `outputs`, its
    /// description of the outputs. The result is `ParseFailure` where no
    /// output has that name.
    pub fn rotation_state_of(outputs: &Vec<SwayOutput>, display: &str) -> (r: Result<
        String,
        Error,
    >)
        ensures
            match transform_of_output(outputs@, display@, 0) {
                Some(transform) => r.is_ok() && r.unwrap()@ == transform,
                None => r == Err::<String, Error>(Error::ParseFailure),
            },
    {
        let mut i: usize = 0;
        while i < outputs.len()
            invariant
                i <= outputs.len(),
                transform_of_output(outputs@, display@, 0) == transform_of_output(
                    outputs@,
                    display@,
                    i as int,
                ),
            decreases outputs.len() - i,
        {
            if same_text(outputs[i].name.as_str(), display) {
                return Ok(outputs[i].transform.clone());
            }
            i = i + 1;
        }
        Err(Error::ParseFailure)
    }
}

/// Once a device without a type is among the first `n`, the keyboards among
/// any longer prefix are unknown as well.
proof fn lemma_keyboards_stay_unknown(
    inputs: Seq<(Option<Seq<char>>, Seq<char>)>,
    n: int,
    m: int,
)
    requires
        0 <= n <= m,
        keyboards_among(inputs, n).is_none(),
    ensures
        keyboards_among(inputs, m).is_none(),
    decreases m - n,
{
    if n < m {
        lemma_keyboards_stay_unknown(inputs, n, m - 1);
    }
}

} // verus!
