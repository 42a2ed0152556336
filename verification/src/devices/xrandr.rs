//! Displays of an X server, rotated by way of the `xrandr` tool.

use crate::command::{texts, Command, CommandView};
use crate::orientation::AbsoluteOrientation;
use crate::pattern::{captures_all, group_texts, match_texts, regex_captures_all};
use crate::text::same_text;
use vstd::prelude::*;

verus! {

pub struct XRandRCreator {}

pub struct XRandRDriver {
    output: String,
}

/// The pattern that finds the connected monitors in a listing.
pub open spec fn monitor_pattern() -> Seq<char> {
    "(.+) connected "@
}

/// The pattern that finds the monitors with their rotation in a listing.
pub open spec fn monitor_orientation_pattern() -> Seq<char> {
    r"(.+) connected .+ .+ (.+) \("@
}

/// The text of group `index` of a match; none where the match has no such
/// group or the group took no part in it.
pub open spec fn group(groups: Seq<Option<Seq<char>>>, index: int) -> Option<Seq<char>> {
    if 0 <= index < groups.len() {
        groups[index]
    } else {
        None
    }
}

/// The monitor names of the matches: the first group of each match that has one.
pub open spec fn monitor_names(matches: Seq<Seq<Option<Seq<char>>>>) -> Seq<Seq<char>>
    decreases matches.len(),
{
    if matches.len() == 0 {
        Seq::empty()
    } else {
        match group(matches.last(), 1) {
            Some(name) => monitor_names(matches.drop_last()).push(name),
            None => monitor_names(matches.drop_last()),
        }
    }
}

/// The rotation word of the first match, from `from` on, whose first group is
/// `output` and that has a second group.
pub open spec fn rotation_word(
    matches: Seq<Seq<Option<Seq<char>>>>,
    output: Seq<char>,
    from: int,
) -> Option<Seq<char>>
    decreases matches.len() - from,
{
    if from < 0 || from >= matches.len() {
        None
    } else if group(matches[from], 1) == Some(output) && group(matches[from], 2).is_some() {
        group(matches[from], 2)
    } else {
        rotation_word(matches, output, from + 1)
    }
}

/// The orientation that a rotation word stands for. No word, or an unknown
/// one, stands for the normal orientation.
pub open spec fn orientation_of_word(word: Option<Seq<char>>) -> AbsoluteOrientation {
    match word {
        None => AbsoluteOrientation::Normal,
        Some(w) => if w == "left"@ {
            AbsoluteOrientation::LeftUp
        } else if w == "inverted"@ {
            AbsoluteOrientation::Flipped
        } else if w == "right"@ {
            AbsoluteOrientation::RightUp
        } else {
            AbsoluteOrientation::Normal
        },
    }
}

/// The word that `xrandr` takes for an orientation.
pub open spec fn word_of_orientation(orientation: AbsoluteOrientation) -> Seq<char> {
    match orientation {
        AbsoluteOrientation::Normal => "normal"@,
        AbsoluteOrientation::RightUp => "right"@,
        AbsoluteOrientation::Flipped => "inverted"@,
        AbsoluteOrientation::LeftUp => "left"@,
    }
}

/// The text of a group, where the match has it and it took part.
fn group_of(groups: &Vec<Option<String>>, index: usize) -> (text: Option<&String>)
    ensures
        match text {
            Some(t) => group(group_texts(groups@), index as int) == Some(t@),
            None => group(group_texts(groups@), index as int).is_none(),
        },
{
    if index < groups.len() {
        match &groups[index] {
            Some(t) => Some(t),
            None => None,
        }
    } else {
        None
    }
}

impl XRandRCreator {
    /// The names of the monitors among `matches`, which are the matches of
    /// the monitor pattern in a listing.
    pub fn monitors_of(matches: &Vec<Vec<Option<String>>>) -> (names: Vec<String>)
        ensures
            texts(names@) == monitor_names(match_texts(matches@)),
    {
        let mut names: Vec<String> = Vec::new();
        let ghost all = match_texts(matches@);
        assert(all.take(0).len() == 0);
        assert(texts(names@) == monitor_names(all.take(0)));
        let mut i: usize = 0;
        while i < matches.len()
            invariant
                i <= matches.len(),
                all == match_texts(matches@),
                texts(names@) == monitor_names(all.take(i as int)),
            decreases matches.len() - i,
        {
            proof {
                let next = all.take(i + 1);
                assert(next.drop_last() == all.take(i as int));
                assert(next.last() == group_texts(matches@[i as int]@));
            }
            match group_of(&matches[i], 1) {
                Some(name) => {
                    let ghost before = texts(names@);
                    names.push(name.clone());
                    assert(texts(names@) == before.push(name@));
                },
                None => {},
            }
            i = i + 1;
        }
        assert(all.take(matches.len() as int) == all);
        names
    }

    /// The connected monitors that the listing of `xrandr -q` names. There
    /// are none where the pattern finds nothing.
    pub fn available_rotators(&self, listing: &str) -> (names: Vec<String>)
        ensures
            texts(names@) == (match regex_captures_all(monitor_pattern(), listing@) {
                Some(matches) => monitor_names(matches),
                None => Seq::empty(),
            }),
    {
        match captures_all("(.+) connected ", listing) {
            Some(matches) => Self::monitors_of(&matches),
            None => {
                let names: Vec<String> = Vec::new();
                assert(texts(names@) == Seq::<Seq<char>>::empty());
                names
            },
        }
    }

    /// The driver of the monitor named `args`.
    pub fn create_rotator(&self, args: String) -> (driver: XRandRDriver)
        ensures
            driver.output_name() == args@,
    {
        XRandRDriver { output: args }
    }
}

impl XRandRDriver {
    /// The name of the monitor.
    pub closed spec fn output_name(&self) -> Seq<char> {
        self.output@
    }

    /// The orientation of the monitor according to `matches`, which are the
    /// matches of the orientation pattern in a listing.
    pub fn orientation_of(&self, matches: &Vec<Vec<Option<String>>>) -> (orientation:
        AbsoluteOrientation)
        ensures
            orientation == orientation_of_word(
                rotation_word(match_texts(matches@), self.output_name(), 0),
            ),
    {
        let ghost all = match_texts(matches@);
        let mut i: usize = 0;
        while i < matches.len()
            invariant
                i <= matches.len(),
                all == match_texts(matches@),
                rotation_word(all, self.output_name(), 0) == rotation_word(
                    all,
                    self.output_name(),
                    i as int,
                ),
            decreases matches.len() - i,
        {
            assert(all[i as int] == group_texts(matches@[i as int]@));
            let name = group_of(&matches[i], 1);
            let word = group_of(&matches[i], 2);
            match (name, word) {
                (Some(n), Some(w)) => {
                    if same_text(n.as_str(), self.output.as_str()) {
                        return if same_text(w.as_str(), "left") {
                            AbsoluteOrientation::LeftUp
                        } else if same_text(w.as_str(), "inverted") {
                            AbsoluteOrientation::Flipped
                        } else if same_text(w.as_str(), "right") {
                            AbsoluteOrientation::RightUp
                        } else {
                            AbsoluteOrientation::Normal
                        };
                    }
                },
                _ => {},
            }
            i = i + 1;
        }
        AbsoluteOrientation::Normal
    }

    /// The orientation of the monitor according to the listing of
    /// `xrandr --query`. A monitor that the listing does not show with a
    /// rotation is in normal orientation.
    pub fn get_current_orientation(&self, listing: &str) -> (orientation: AbsoluteOrientation)
        ensures
            orientation == (match regex_captures_all(monitor_orientation_pattern(), listing@) {
                Some(matches) => orientation_of_word(
                    rotation_word(matches, self.output_name(), 0),
                ),
                None => AbsoluteOrientation::Normal,
            }),
    {
        match captures_all(r"(.+) connected .+ .+ (.+) \(", listing) {
            Some(matches) => self.orientation_of(&matches),
            None => AbsoluteOrientation::Normal,
        }
    }

    /// The command that turns the monitor to `orientation`.
    pub fn set_orientation(&self, orientation: AbsoluteOrientation) -> (command: Command)
        ensures
            command@ == (CommandView {
                program: "xrandr"@,
                args: seq![
                    "--output"@,
                    self.output_name(),
                    "--rotate"@,
                    word_of_orientation(orientation),
                ],
                env: Seq::empty(),
                quiet: false,
            }),
    {
        let mut command = Command::new("xrandr");
        command.arg("--output");
        command.arg(self.output.as_str());
        command.arg("--rotate");
        command.arg(
            match orientation {
                AbsoluteOrientation::Normal => "normal",
                AbsoluteOrientation::RightUp => "right",
                AbsoluteOrientation::Flipped => "inverted",
                AbsoluteOrientation::LeftUp => "left",
            },
        );
        assert(command@.args == seq![
            "--output"@,
            self.output_name(),
            "--rotate"@,
            word_of_orientation(orientation),
        ]);
        command
    }
}

} // verus!
