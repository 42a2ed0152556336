//! The X11 backend: rotation by way of the `xrandr` and `xinput` tools.
//!
//! There is no connection to keep. To rotate, the backend names the commands
//! to run, one after the other. To learn the current rotation, it reads the
//! listing that `xrandr` prints.

use crate::classifier::Orientation;
use crate::command::{command_views, texts, Command, CommandView};
use crate::error::Error;
use crate::pattern::{captures, escape, escaped, regex_captures};
use crate::text::{decimal, decimal_text, lines_of, same_text, split_lines, texts_of};
use crate::transform::Transform;
use vstd::prelude::*;
use vstd::string::StringExecFns;

verus! {

/// The pattern that a line of the listing must match to count as the line of
/// `display`: the display's name at the start of the line, the word
/// `connected`, two more words, the rotation if it is not the normal one,
/// and the list of available rotations.
pub open spec fn output_pattern(display: Seq<char>) -> Seq<char> {
    "^"@ + escaped(display)
        + r" connected .+? .+? (normal |inverted |left |right )?\(normal left inverted right x axis y axis\) .+$"@
}

/// The transform that the captured groups of a matching line stand for. The
/// rotation is the first group, captured together with the blank that
/// follows it; a line without it is in normal rotation.
pub open spec fn rotation_of_groups(groups: Seq<Option<Seq<char>>>) -> Transform {
    if groups.len() > 1 && groups[1].is_some() {
        let token = groups[1].unwrap();
        if token == "inverted "@ {
            Transform::_180
        } else if token == "right "@ {
            Transform::_270
        } else if token == "left "@ {
            Transform::_90
        } else {
            Transform::Normal
        }
    } else {
        Transform::Normal
    }
}

/// The rotation that the listing `lines` gives for the pattern, looking at
/// the lines from `from` on: that of the first line that matches. There is
/// none where no line matches, or where the pattern cannot be compiled.
pub open spec fn listed_rotation(pattern: Seq<char>, lines: Seq<Seq<char>>, from: int) -> Option<
    Transform,
>
    decreases lines.len() - from,
{
    if from < 0 || from >= lines.len() {
        None
    } else {
        match regex_captures(pattern, lines[from]) {
            None => None,
            Some(None) => listed_rotation(pattern, lines, from + 1),
            Some(Some(groups)) => Some(rotation_of_groups(groups)),
        }
    }
}

/// The command that rotates the screen to `x_state`.
pub open spec fn rotate_command(x_state: Seq<char>) -> CommandView {
    CommandView {
        program: "xrandr"@,
        args: seq!["-o"@, x_state],
        env: Seq::empty(),
        quiet: false,
    }
}

/// The decimal notation of each entry of `matrix`.
pub open spec fn matrix_texts(matrix: Seq<i8>) -> Seq<Seq<char>> {
    Seq::new(matrix.len(), |i: int| decimal(matrix[i] as int))
}

/// The command that sets the coordinate transformation of `touchscreen`.
pub open spec fn matrix_command(touchscreen: Seq<char>, matrix: Seq<i8>) -> CommandView {
    CommandView {
        program: "xinput"@,
        args: seq!["set-prop"@, touchscreen, "Coordinate Transformation Matrix"@] + matrix_texts(
            matrix,
        ),
        env: Seq::empty(),
        quiet: false,
    }
}

/// The commands that rotate the screen and the touchscreens to `state`: the
/// screen first, then each touchscreen in turn.
pub open spec fn rotation_commands(touchscreens: Seq<Seq<char>>, state: Orientation) -> Seq<
    CommandView,
> {
    seq![rotate_command(state.x_state@)] + Seq::new(
        touchscreens.len(),
        |i: int| matrix_command(touchscreens[i], state.matrix@),
    )
}

/// The X11 backend for one display and its touchscreens.
#[derive(Clone, Debug)]
pub struct XorgBackend {
    touchscreens: Vec<String>,
    target_display: String,
}

impl XorgBackend {
    /// The name of the display.
    pub closed spec fn display(&self) -> Seq<char> {
        self.target_display@
    }

    /// The names of the touchscreens.
    pub closed spec fn touchscreen_names(&self) -> Seq<Seq<char>> {
        texts(self.touchscreens@)
    }

    pub fn new(display: &str, touchscreens: Vec<String>) -> (backend: Self)
        ensures
            backend.display() == display@,
            backend.touchscreen_names() == texts(touchscreens@),
    {
        XorgBackend { target_display: String::from_str(display), touchscreens }
    }

    /// The command that sets the coordinate transformation of one touchscreen.
    fn matrix_command_for(touchscreen: &str, matrix: &[i8; 9]) -> (command: Command)
        ensures
            command@ == matrix_command(touchscreen@, matrix@),
    {
        let mut command = Command::new("xinput");
        command.arg("set-prop");
        command.arg(touchscreen);
        command.arg("Coordinate Transformation Matrix");
        let mut k: usize = 0;
        while k < 9
            invariant
                k <= 9,
                command@.program == "xinput"@,
                command@.env == Seq::<(Seq<char>, Seq<char>)>::empty(),
                !command@.quiet,
                command@.args == seq![
                    "set-prop"@,
                    touchscreen@,
                    "Coordinate Transformation Matrix"@,
                ] + matrix_texts(matrix@).take(k as int),
            decreases 9 - k,
        {
            let entry = decimal_text(matrix[k] as i64);
            command.arg(entry.as_str());
            assert(matrix_texts(matrix@).take(k + 1) == matrix_texts(matrix@).take(
                k as int,
            ).push(decimal(matrix@[k as int] as int)));
            k = k + 1;
        }
        assert(matrix_texts(matrix@).take(9) == matrix_texts(matrix@));
        command
    }

    /// The commands to run, in order and each to its end before the next,
    /// to rotate the screen and the touchscreens to `new_state`.
    pub fn apply(&self, new_state: &Orientation) -> (commands: Vec<Command>)
        ensures
            command_views(commands@) == rotation_commands(self.touchscreen_names(), *new_state),
    {
        let mut commands: Vec<Command> = Vec::new();
        let mut rotate = Command::new("xrandr");
        rotate.arg("-o");
        rotate.arg(new_state.x_state);
        assert(rotate@.args == seq!["-o"@, new_state.x_state@]);
        commands.push(rotate);
        let ghost wanted = rotation_commands(self.touchscreen_names(), *new_state);
        assert(wanted.take(1) == seq![rotate_command(new_state.x_state@)]);
        assert(command_views(commands@) == wanted.take(1));
        let mut i: usize = 0;
        while i < self.touchscreens.len()
            invariant
                i <= self.touchscreens.len(),
                wanted == rotation_commands(self.touchscreen_names(), *new_state),
                commands@.len() == i + 1,
                command_views(commands@) == wanted.take(i + 1),
            decreases self.touchscreens.len() - i,
        {
            let command = Self::matrix_command_for(
                self.touchscreens[i].as_str(),
                &new_state.matrix,
            );
            let ghost before = command_views(commands@);
            commands.push(command);
            assert(command_views(commands@) == before.push(command@));
            assert(wanted.take(i + 2) == wanted.take(i + 1).push(wanted[i + 1]));
            i = i + 1;
        }
        assert(wanted.take(wanted.len() as int) == wanted);
        commands
    }

    /// The transform that the captured groups of a matching line stand for.
    pub fn rotation_of_match(groups: &Vec<Option<String>>) -> (transform: Transform)
        ensures
            transform == rotation_of_groups(crate::pattern::group_texts(groups@)),
    {
        if groups.len() > 1 {
            match &groups[1] {
                Some(token) => {
                    if same_text(token.as_str(), "inverted ") {
                        Transform::_180
                    } else if same_text(token.as_str(), "right ") {
                        Transform::_270
                    } else if same_text(token.as_str(), "left ") {
                        Transform::_90
                    } else {
                        Transform::Normal
                    }
                },
                None => Transform::Normal,
            }
        } else {
            Transform::Normal
        }
    }

    /// The current transform of the display, read off the listing that
    /// `xrandr` printed. It is what the first line that matches the display's
    /// pattern says. Where no line matches, the result is `ParseFailure`.
    pub fn query(&self, xrandr_output: &str) -> (r: Result<Transform, Error>)
        ensures
            match listed_rotation(output_pattern(self.display()), lines_of(xrandr_output@), 0) {
                Some(transform) => r == Ok::<Transform, Error>(transform),
                None => r == Err::<Transform, Error>(Error::ParseFailure),
            },
    {
        let quoted = escape(self.target_display.as_str());
        let pattern = String::from_str("^").concat(quoted.as_str()).concat(
            r" connected .+? .+? (normal |inverted |left |right )?\(normal left inverted right x axis y axis\) .+$",
        );
        let lines = split_lines(xrandr_output);
        let ghost all = lines_of(xrandr_output@);
        let mut i: usize = 0;
        while i < lines.len()
            invariant
                i <= lines.len(),
                texts_of(lines@) == all,
                all == lines_of(xrandr_output@),
                pattern@ == output_pattern(self.display()),
                listed_rotation(pattern@, all, 0) == listed_rotation(pattern@, all, i as int),
            decreases lines.len() - i,
        {
            assert(all[i as int] == lines@[i as int]@);
            let found = captures(pattern.as_str(), lines[i]);
            assert(listed_rotation(pattern@, all, i as int) == (match regex_captures(
                pattern@,
                all[i as int],
            ) {
                None => None,
                Some(None) => listed_rotation(pattern@, all, i + 1),
                Some(Some(groups)) => Some(rotation_of_groups(groups)),
            }));
            match found {
                None => {
                    return Err(Error::ParseFailure);
                },
                Some(None) => {},
                Some(Some(groups)) => {
                    return Ok(Self::rotation_of_match(&groups));
                },
            }
            i = i + 1;
        }
        Err(Error::ParseFailure)
    }
}

} // verus!
