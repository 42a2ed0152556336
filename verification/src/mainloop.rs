//! One turn of the main loop: classify the reading, compare with what the
//! display shows, and name what is to be done if the two differ. Reading
//! the sensor, running hooks and talking to the backend are the caller's
//! business.

use crate::classifier::Orientation;
use crate::command::{command_views, texts, Command, CommandView};
use crate::error::Error;
use crate::gravity::{
    classify_reading, classify_reading_spec, floor_sqrt, magnitude, squared_length, AxisMap,
    Factor, Reading,
};
use crate::orientation::AbsoluteOrientation;
use crate::transform::{env_label, transform_to_env, Transform};
use vstd::prelude::*;

verus! {

/// The display backends that the program chooses from at start.
#[derive(Copy, Clone, Debug, PartialEq, Eq, Structural)]
pub enum BackendKind {
    /// The output-management protocol, with sway's IPC on top.
    Sway,
    /// The output-management protocol alone.
    Wayland,
    /// The X tools.
    Xorg,
}

/// Chooses the backend. A compositor that speaks the output-management
/// protocol is preferred, with sway's extras where sway runs; the X tools
/// are the fallback where an X server runs. Without either there is no
/// backend.
pub fn select_backend(protocol_supported: bool, sway_running: bool, xorg_running: bool) -> (r:
    Result<BackendKind, Error>)
    ensures
        protocol_supported && sway_running ==> r == Ok::<BackendKind, Error>(BackendKind::Sway),
        protocol_supported && !sway_running ==> r == Ok::<BackendKind, Error>(
            BackendKind::Wayland,
        ),
        !protocol_supported && xorg_running ==> r == Ok::<BackendKind, Error>(BackendKind::Xorg),
        !protocol_supported && !xorg_running ==> r == Err::<BackendKind, Error>(
            Error::ProtocolUnsupported,
        ),
{
    if protocol_supported {
        if sway_running {
            Ok(BackendKind::Sway)
        } else {
            Ok(BackendKind::Wayland)
        }
    } else if xorg_running {
        Ok(BackendKind::Xorg)
    } else {
        Err(Error::ProtocolUnsupported)
    }
}

/// The command that runs one hook: the hook is handed to `bash`, which sees
/// the new and the previous orientation in its environment.
pub open spec fn hook_command(hook: Seq<char>, new_state: Transform, old_state: Transform)
    -> CommandView {
    CommandView {
        program: "bash"@,
        args: seq!["-c"@, hook],
        env: seq![
            ("ORIENTATION"@, env_label(new_state)),
            ("PREV_ORIENTATION"@, env_label(old_state)),
        ],
        quiet: false,
    }
}

/// The commands that run `hooks`, in order.
pub open spec fn hook_commands_spec(
    hooks: Seq<Seq<char>>,
    new_state: Transform,
    old_state: Transform,
) -> Seq<CommandView> {
    Seq::new(hooks.len(), |i: int| hook_command(hooks[i], new_state, old_state))
}

/// The commands that run `hooks`, in order, for a rotation from
/// `old_state` to `new_state`.
pub fn hook_commands(hooks: &Vec<String>, new_state: Transform, old_state: Transform) -> (commands:
    Vec<Command>)
    ensures
        command_views(commands@) == hook_commands_spec(texts(hooks@), new_state, old_state),
{
    let new_env = transform_to_env(&new_state);
    let old_env = transform_to_env(&old_state);
    let mut commands: Vec<Command> = Vec::new();
    let ghost wanted = hook_commands_spec(texts(hooks@), new_state, old_state);
    assert(command_views(commands@) == wanted.take(0));
    let mut i: usize = 0;
    while i < hooks.len()
        invariant
            i <= hooks.len(),
            new_env@ == env_label(new_state),
            old_env@ == env_label(old_state),
            wanted == hook_commands_spec(texts(hooks@), new_state, old_state),
            command_views(commands@) == wanted.take(i as int),
        decreases hooks.len() - i,
    {
        let mut command = Command::new("bash");
        command.arg("-c");
        command.arg(hooks[i].as_str());
        command.env("ORIENTATION", new_env);
        command.env("PREV_ORIENTATION", old_env);
        assert(command@.args == seq!["-c"@, hooks@[i as int]@]);
        assert(command@.env == seq![
            ("ORIENTATION"@, env_label(new_state)),
            ("PREV_ORIENTATION"@, env_label(old_state)),
        ]);
        let ghost before = command_views(commands@);
        commands.push(command);
        assert(command_views(commands@) == before.push(command@));
        assert(wanted.take(i + 1) == wanted.take(i as int).push(wanted[i as int]));
        i = i + 1;
    }
    assert(wanted.take(hooks.len() as int) == wanted);
    commands
}

/// What is to be done when the display has to turn: the hooks to run
/// before, the orientation to hand to the backend, the hooks to run after.
pub struct Turn {
    pub before: Vec<Command>,
    pub target: Orientation,
    pub after: Vec<Command>,
}

/// The state of the main loop between two readings.
pub struct MainLoop {
    map: AxisMap,
    normalization_factor: Option<Factor>,
    threshold: i64,
    old_state: Transform,
    current_orient: Orientation,
}

/// Holds when the display, which shows `old_state`, has to turn to show `orientation`.
pub open spec fn turn_due(old_state: Transform, orientation: Orientation) -> bool {
    orientation.wayland_state != old_state
}

impl MainLoop {
    /// The axis map in use.
    pub closed spec fn axis_map(&self) -> AxisMap {
        self.map
    }

    /// The fixed normalization factor, if one is set.
    pub closed spec fn fixed_factor(&self) -> Option<Factor> {
        self.normalization_factor
    }

    /// The threshold in use.
    pub closed spec fn threshold_in_use(&self) -> i64 {
        self.threshold
    }

    /// The transform that the display shows, as far as the loop knows.
    pub closed spec fn shown(&self) -> Transform {
        self.old_state
    }

    /// The orientation that the last reading was classified as.
    pub closed spec fn current(&self) -> Orientation {
        self.current_orient
    }

    /// The factor by which `reading` is normalized: the fixed one where one
    /// is set, else the length of the reading's vector.
    pub open spec fn factor_for(&self, reading: Reading) -> Factor {
        match self.fixed_factor() {
            Some(factor) => factor,
            None => Factor {
                numerator: floor_sqrt(squared_length(reading)) as i64,
                denominator: 1,
            },
        }
    }

    /// The orientation that `reading` selects, if it selects one.
    pub open spec fn selection(&self, reading: Reading) -> Option<AbsoluteOrientation> {
        classify_reading_spec(
            self.axis_map(),
            reading,
            self.factor_for(reading),
            self.threshold_in_use() as int,
        )
    }

    /// A loop that starts from the normal orientation, with the display
    /// showing `shown`.
    pub fn new(
        map: AxisMap,
        normalization_factor: Option<Factor>,
        threshold: i64,
        shown: Transform,
    ) -> (state: MainLoop)
        ensures
            state.axis_map() == map,
            state.fixed_factor() == normalization_factor,
            state.threshold_in_use() == threshold,
            state.shown() == shown,
            state.current().kind == AbsoluteOrientation::Normal,
            state.current().is_canonical(),
    {
        MainLoop {
            map,
            normalization_factor,
            threshold,
            old_state: shown,
            current_orient: Orientation::of(AbsoluteOrientation::Normal),
        }
    }

    /// The orientation that the last reading was classified as.
    pub fn current_orientation(&self) -> (o: Orientation)
        ensures
            o == self.current(),
    {
        self.current_orient
    }

    /// One turn of the loop. The reading is classified; the orientation it
    /// selects becomes the current one, and where it selects none the
    /// current one stays. Where the current orientation's transform differs
    /// from what the display shows, the result names what is to be done,
    /// and the loop takes the display to show the new transform from now
    /// on. Where it does not differ there is nothing to do.
    pub fn tick(&mut self, reading: Reading, beforehooks: &Vec<String>, hooks: &Vec<String>) -> (r:
        Option<Turn>)
        ensures
            final(self).axis_map() == old(self).axis_map(),
            final(self).fixed_factor() == old(self).fixed_factor(),
            final(self).threshold_in_use() == old(self).threshold_in_use(),
            match old(self).selection(reading) {
                Some(kind) => final(self).current().kind == kind
                    && final(self).current().is_canonical(),
                None => final(self).current() == old(self).current(),
            },
            final(self).shown() == final(self).current().wayland_state,
            r.is_some() == turn_due(old(self).shown(), final(self).current()),
            r.is_some() ==> r.unwrap().target == final(self).current() && command_views(
                r.unwrap().before@,
            ) == hook_commands_spec(
                texts(beforehooks@),
                final(self).current().wayland_state,
                old(self).shown(),
            ) && command_views(r.unwrap().after@) == hook_commands_spec(
                texts(hooks@),
                final(self).current().wayland_state,
                old(self).shown(),
            ),
    {
        let factor: Factor = match self.normalization_factor {
            Some(factor) => factor,
            None => Factor::whole(magnitude(reading)),
        };
        self.current_orient =
        classify_reading(&self.map, reading, factor, self.threshold, self.current_orient);
        if self.current_orient.wayland_state != self.old_state {
            let new_state = self.current_orient.wayland_state;
            let before = hook_commands(beforehooks, new_state, self.old_state);
            let after = hook_commands(hooks, new_state, self.old_state);
            self.old_state = new_state;
            Some(Turn { before, target: self.current_orient, after })
        } else {
            None
        }
    }
}

/// The display is turned once for each change: right after a turn to an
/// orientation, no turn to that orientation is due.
pub proof fn law_no_turn_without_change(old_state: Transform, orientation: Orientation)
    ensures
        !turn_due(orientation.wayland_state, orientation),
        turn_due(old_state, orientation) == (old_state != orientation.wayland_state),
{
}

} // verus!
