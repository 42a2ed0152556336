//! Output transforms as the compositor encodes them.

use vstd::prelude::*;

verus! {

/// The transform of an output: a counter-clockwise rotation of the content,
/// optionally after a flip around the vertical axis.
#[derive(Copy, Clone, Debug, PartialEq, Eq, Structural)]
pub enum Transform {
    Normal,
    _90,
    _180,
    _270,
    Flipped,
    Flipped90,
    Flipped180,
    Flipped270,
}

impl Transform {
    /// The wire code of the transform, 0 to 7.
    pub open spec fn code_spec(self) -> int {
        match self {
            Transform::Normal => 0,
            Transform::_90 => 1,
            Transform::_180 => 2,
            Transform::_270 => 3,
            Transform::Flipped => 4,
            Transform::Flipped90 => 5,
            Transform::Flipped180 => 6,
            Transform::Flipped270 => 7,
        }
    }

    /// The wire code of the transform.
    pub fn code(self) -> (c: u32)
        ensures
            c == self.code_spec(),
    {
        match self {
            Transform::Normal => 0,
            Transform::_90 => 1,
            Transform::_180 => 2,
            Transform::_270 => 3,
            Transform::Flipped => 4,
            Transform::Flipped90 => 5,
            Transform::Flipped180 => 6,
            Transform::Flipped270 => 7,
        }
    }

    /// The transform with wire code `code`, if there is one.
    pub fn from_code(code: u32) -> (t: Option<Transform>)
        ensures
            code < 8 ==> t.is_some() && t.unwrap().code_spec() == code,
            code >= 8 ==> t.is_none(),
    {
        match code {
            0 => Some(Transform::Normal),
            1 => Some(Transform::_90),
            2 => Some(Transform::_180),
            3 => Some(Transform::_270),
            4 => Some(Transform::Flipped),
            5 => Some(Transform::Flipped90),
            6 => Some(Transform::Flipped180),
            7 => Some(Transform::Flipped270),
            _ => None,
        }
    }
}

/// The text that hooks receive for a transform, as a spec value.
pub open spec fn env_label(transform: Transform) -> Seq<char> {
    match transform {
        Transform::Normal => "normal"@,
        Transform::_90 => "270"@,
        Transform::_180 => "inverted"@,
        Transform::_270 => "90"@,
        _ => "normal"@,
    }
}

/// The value of the `ORIENTATION` and `PREV_ORIENTATION` variables that hooks
/// see for a transform. Flipped transforms read as "normal".
pub fn transform_to_env(transform: &Transform) -> (label: &'static str)
    ensures
        label@ == env_label(*transform),
{
    match transform {
        Transform::Normal => "normal",
        Transform::_90 => "270",
        Transform::_180 => "inverted",
        Transform::_270 => "90",
        _ => "normal",
    }
}

} // verus!
