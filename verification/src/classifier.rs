//! From a gravity vector to one of the four canonical orientations.
//!
//! Vectors are fixed-point: a component of `UNIT` stands for 1.0. The table
//! of orientations is scanned front to back and the first entry that lies
//! within the threshold wins, so where two entries qualify the earlier one is
//! chosen even if the later one is closer.

use crate::orientation::AbsoluteOrientation;
use crate::transform::Transform;
use vstd::prelude::*;

verus! {

/// The fixed-point value of 1.0.
pub const UNIT: i64 = 1_000_000;

/// The threshold used when none is configured: 0.5.
pub const DEFAULT_THRESHOLD: i64 = 500_000;

/// One canonical orientation with its encoding for each backend.
#[derive(Copy, Clone, Debug)]
pub struct Orientation {
    /// Which of the four orientations this is.
    pub kind: AbsoluteOrientation,
    /// Where gravity points, in fixed-point device coordinates, when the
    /// device is held this way.
    pub vector: (i64, i64),
    /// The transform the compositor is asked for.
    pub wayland_state: Transform,
    /// The rotation name the X tools understand.
    pub x_state: &'static str,
    /// The coordinate transformation matrix for absolute pointing devices,
    /// row by row.
    pub matrix: [i8; 9],
}

/// Gravity direction of each orientation, in whole units.
pub open spec fn unit_vector(kind: AbsoluteOrientation) -> (int, int) {
    match kind {
        AbsoluteOrientation::Normal => (0, -1),
        AbsoluteOrientation::Flipped => (0, 1),
        AbsoluteOrientation::RightUp => (-1, 0),
        AbsoluteOrientation::LeftUp => (1, 0),
    }
}

/// Compositor transform of each orientation.
pub open spec fn canonical_transform(kind: AbsoluteOrientation) -> Transform {
    match kind {
        AbsoluteOrientation::Normal => Transform::Normal,
        AbsoluteOrientation::Flipped => Transform::_180,
        AbsoluteOrientation::RightUp => Transform::_270,
        AbsoluteOrientation::LeftUp => Transform::_90,
    }
}

/// X rotation name of each orientation.
pub open spec fn canonical_label(kind: AbsoluteOrientation) -> Seq<char> {
    match kind {
        AbsoluteOrientation::Normal => "normal"@,
        AbsoluteOrientation::Flipped => "inverted"@,
        AbsoluteOrientation::RightUp => "right"@,
        AbsoluteOrientation::LeftUp => "left"@,
    }
}

/// Pointer matrix of each orientation, row by row.
pub open spec fn canonical_matrix(kind: AbsoluteOrientation) -> Seq<i8> {
    match kind {
        AbsoluteOrientation::Normal => seq![1i8, 0i8, 0i8, 0i8, 1i8, 0i8, 0i8, 0i8, 1i8],
        AbsoluteOrientation::Flipped => seq![-1i8, 0i8, 1i8, 0i8, -1i8, 1i8, 0i8, 0i8, 1i8],
        AbsoluteOrientation::RightUp => seq![0i8, 1i8, 0i8, -1i8, 0i8, 1i8, 0i8, 0i8, 1i8],
        AbsoluteOrientation::LeftUp => seq![0i8, -1i8, 1i8, 1i8, 0i8, 0i8, 0i8, 0i8, 1i8],
    }
}

/// The order in which the table is scanned.
pub open spec fn scan_order() -> Seq<AbsoluteOrientation> {
    seq![
        AbsoluteOrientation::Normal,
        AbsoluteOrientation::Flipped,
        AbsoluteOrientation::RightUp,
        AbsoluteOrientation::LeftUp,
    ]
}

impl Orientation {
    /// Holds when every field is the canonical encoding of `self.kind`.
    pub open spec fn is_canonical(self) -> bool {
        &&& self.vector.0 == unit_vector(self.kind).0 * UNIT
        &&& self.vector.1 == unit_vector(self.kind).1 * UNIT
        &&& self.wayland_state == canonical_transform(self.kind)
        &&& self.x_state@ == canonical_label(self.kind)
        &&& self.matrix@ == canonical_matrix(self.kind)
    }

    /// The table entry of `kind`.
    pub fn of(kind: AbsoluteOrientation) -> (o: Orientation)
        ensures
            o.kind == kind,
            o.is_canonical(),
    {
        match kind {
            AbsoluteOrientation::Normal => Orientation {
                kind,
                vector: (0, -UNIT),
                wayland_state: Transform::Normal,
                x_state: "normal",
                matrix: [1, 0, 0, 0, 1, 0, 0, 0, 1],
            },
            AbsoluteOrientation::Flipped => Orientation {
                kind,
                vector: (0, UNIT),
                wayland_state: Transform::_180,
                x_state: "inverted",
                matrix: [-1, 0, 1, 0, -1, 1, 0, 0, 1],
            },
            AbsoluteOrientation::RightUp => Orientation {
                kind,
                vector: (-UNIT, 0),
                wayland_state: Transform::_270,
                x_state: "right",
                matrix: [0, 1, 0, -1, 0, 1, 0, 0, 1],
            },
            AbsoluteOrientation::LeftUp => Orientation {
                kind,
                vector: (UNIT, 0),
                wayland_state: Transform::_90,
                x_state: "left",
                matrix: [0, -1, 1, 1, 0, 0, 0, 0, 1],
            },
        }
    }
}

/// Holds when `table` is the canonical table: the four orientations in scan order.
pub open spec fn is_canonical_table(table: Seq<Orientation>) -> bool {
    &&& table.len() == 4
    &&& forall|i: int|
        0 <= i < 4 ==> (#[trigger] table[i]).kind == scan_order()[i] && table[i].is_canonical()
}

/// The table of orientations, in the order in which it is scanned.
pub fn orientations() -> (table: Vec<Orientation>)
    ensures
        is_canonical_table(table@),
{
    let mut table: Vec<Orientation> = Vec::new();
    table.push(Orientation::of(AbsoluteOrientation::Normal));
    table.push(Orientation::of(AbsoluteOrientation::Flipped));
    table.push(Orientation::of(AbsoluteOrientation::RightUp));
    table.push(Orientation::of(AbsoluteOrientation::LeftUp));
    table
}

/// Squared distance between the point `(x, y)` and `v`.
pub open spec fn sq_dist(x: int, y: int, v: (i64, i64)) -> int {
    (x - v.0) * (x - v.0) + (y - v.1) * (y - v.1)
}

/// Holds when `(x, y)` is closer to `v` than `threshold`: the squared
/// distance is strictly below the squared threshold.
pub open spec fn within(x: int, y: int, threshold: int, v: (i64, i64)) -> bool {
    sq_dist(x, y, v) < threshold * threshold
}

/// Holds when `i` is the first index of `table` whose vector is within
/// `threshold` of `(x, y)`.
pub open spec fn is_first_within(
    table: Seq<Orientation>,
    x: int,
    y: int,
    threshold: int,
    i: int,
) -> bool {
    &&& 0 <= i < table.len()
    &&& within(x, y, threshold, table[i].vector)
    &&& forall|j: int| 0 <= j < i ==> !within(x, y, threshold, #[trigger] table[j].vector)
}

/// Holds when no entry of `table` is within `threshold` of `(x, y)`.
pub open spec fn none_within(table: Seq<Orientation>, x: int, y: int, threshold: int) -> bool {
    forall|j: int| 0 <= j < table.len() ==> !within(x, y, threshold, #[trigger] table[j].vector)
}

/// Absolute difference of two fixed-point components.
fn abs_diff(a: i64, b: i64) -> (d: u128)
    ensures
        d == if a >= b {
            a - b
        } else {
            b - a
        },
        d <= 0xFFFF_FFFF_FFFF_FFFF,
{
    let wide: i128 = a as i128 - b as i128;
    if wide < 0 {
        (-wide) as u128
    } else {
        wide as u128
    }
}

/// Square of a value of at most 64 bits.
fn square(a: u128) -> (s: u128)
    requires
        a <= 0xFFFF_FFFF_FFFF_FFFF,
    ensures
        s == a * a,
{
    assert(a * a <= 0xFFFF_FFFF_FFFF_FFFF * 0xFFFF_FFFF_FFFF_FFFF) by (nonlinear_arith)
        requires
            0 <= a <= 0xFFFF_FFFF_FFFF_FFFF,
    ;
    a * a
}

/// Decides whether `(x, y)` is within `threshold` of `v`, for every value of
/// the four numbers.
pub fn is_within(x: i64, y: i64, threshold: i64, v: (i64, i64)) -> (b: bool)
    ensures
        b == within(x as int, y as int, threshold as int, v),
{
    let dx: u128 = abs_diff(x, v.0);
    let dy: u128 = abs_diff(y, v.1);
    let t: u128 = abs_diff(threshold, 0);
    let dx2: u128 = square(dx);
    let dy2: u128 = square(dy);
    let t2: u128 = square(t);
    proof {
        assert((x - v.0) * (x - v.0) == dx * dx) by (nonlinear_arith)
            requires
                dx == x - v.0 || dx == -(x - v.0),
        ;
        assert((y - v.1) * (y - v.1) == dy * dy) by (nonlinear_arith)
            requires
                dy == y - v.1 || dy == -(y - v.1),
        ;
        assert(threshold * threshold == t * t) by (nonlinear_arith)
            requires
                t == threshold || t == -threshold,
        ;
    }
    dx2 < t2 && dy2 < t2 - dx2
}

/// Scans `table` front to back for the first entry within `threshold` of
/// `(x, y)`.
pub fn find_first_within(table: &Vec<Orientation>, x: i64, y: i64, threshold: i64) -> (r: Option<
    usize,
>)
    ensures
        match r {
            Some(i) => is_first_within(table@, x as int, y as int, threshold as int, i as int),
            None => none_within(table@, x as int, y as int, threshold as int),
        },
{
    let mut i: usize = 0;
    while i < table.len()
        invariant
            i <= table.len(),
            forall|j: int|
                0 <= j < i ==> !within(
                    x as int,
                    y as int,
                    threshold as int,
                    #[trigger] table@[j].vector,
                ),
        decreases table.len() - i,
    {
        if is_within(x, y, threshold, table[i].vector) {
            return Some(i);
        }
        i = i + 1;
    }
    None
}

/// The fixed-point gravity vector of `kind`.
pub open spec fn canonical_vector(kind: AbsoluteOrientation) -> (i64, i64) {
    ((unit_vector(kind).0 * UNIT) as i64, (unit_vector(kind).1 * UNIT) as i64)
}

/// Holds when `(x, y)` is within `threshold` of the gravity vector of `kind`.
pub open spec fn near(x: int, y: int, threshold: int, kind: AbsoluteOrientation) -> bool {
    within(x, y, threshold, canonical_vector(kind))
}

/// The orientation that `(x, y)` selects: the first in scan order that is
/// near, if any.
pub open spec fn selected(x: int, y: int, threshold: int) -> Option<AbsoluteOrientation> {
    if near(x, y, threshold, AbsoluteOrientation::Normal) {
        Some(AbsoluteOrientation::Normal)
    } else if near(x, y, threshold, AbsoluteOrientation::Flipped) {
        Some(AbsoluteOrientation::Flipped)
    } else if near(x, y, threshold, AbsoluteOrientation::RightUp) {
        Some(AbsoluteOrientation::RightUp)
    } else if near(x, y, threshold, AbsoluteOrientation::LeftUp) {
        Some(AbsoluteOrientation::LeftUp)
    } else {
        None
    }
}

/// The orientation after seeing `(x, y)`: the selected one, or `previous`
/// where none is selected.
pub open spec fn classify_spec(
    x: int,
    y: int,
    threshold: int,
    previous: AbsoluteOrientation,
) -> AbsoluteOrientation {
    match selected(x, y, threshold) {
        Some(kind) => kind,
        None => previous,
    }
}

/// Classifies the normalized vector `(x, y)`. The result is the table entry
/// of the first orientation, in scan order, whose gravity vector is within
/// `threshold` of `(x, y)`; where there is none, it is `previous`, unchanged.
pub fn classify(x: i64, y: i64, threshold: i64, previous: Orientation) -> (o: Orientation)
    ensures
        o.kind == classify_spec(x as int, y as int, threshold as int, previous.kind),
        selected(x as int, y as int, threshold as int).is_some() ==> o.is_canonical(),
        selected(x as int, y as int, threshold as int).is_none() ==> o == previous,
{
    let table = orientations();
    proof {
        // Each entry holds the vector of the orientation at its place in scan order.
        assert(table@[0].vector == canonical_vector(scan_order()[0]));
        assert(table@[1].vector == canonical_vector(scan_order()[1]));
        assert(table@[2].vector == canonical_vector(scan_order()[2]));
        assert(table@[3].vector == canonical_vector(scan_order()[3]));
    }
    match find_first_within(&table, x, y, threshold) {
        Some(i) => table[i],
        None => previous,
    }
}

/// A vector that is near exactly one orientation is classified as that
/// orientation, whatever the previous orientation was.
pub proof fn lemma_classify_unique(
    x: int,
    y: int,
    threshold: int,
    previous: AbsoluteOrientation,
    kind: AbsoluteOrientation,
)
    requires
        near(x, y, threshold, kind),
        forall|other: AbsoluteOrientation| other != kind ==> !near(x, y, threshold, other),
    ensures
        classify_spec(x, y, threshold, previous) == kind,
{
    if kind != AbsoluteOrientation::Normal {
        assert(!near(x, y, threshold, AbsoluteOrientation::Normal));
    }
    if kind != AbsoluteOrientation::Flipped {
        assert(!near(x, y, threshold, AbsoluteOrientation::Flipped));
    }
    if kind != AbsoluteOrientation::RightUp {
        assert(!near(x, y, threshold, AbsoluteOrientation::RightUp));
    }
}

/// Where two orientations are both near, the one that comes earlier in scan
/// order wins over the later one, however the two distances compare: the
/// result is never the later one, and it is the earlier one unless an
/// orientation before it is near as well.
pub proof fn lemma_classify_prefers_earlier(
    x: int,
    y: int,
    threshold: int,
    previous: AbsoluteOrientation,
    i: int,
    j: int,
)
    requires
        0 <= i < j < 4,
        near(x, y, threshold, scan_order()[i]),
        near(x, y, threshold, scan_order()[j]),
    ensures
        classify_spec(x, y, threshold, previous) != scan_order()[j],
        exists|k: int| 0 <= k <= i && classify_spec(x, y, threshold, previous) == scan_order()[k],
        (forall|k: int| 0 <= k < i ==> !near(x, y, threshold, scan_order()[k])) ==> classify_spec(
            x,
            y,
            threshold,
            previous,
        ) == scan_order()[i],
{
    let r = classify_spec(x, y, threshold, previous);
    if near(x, y, threshold, scan_order()[0]) {
        assert(r == scan_order()[0]);
    } else if near(x, y, threshold, scan_order()[1]) {
        assert(r == scan_order()[1]);
    } else if near(x, y, threshold, scan_order()[2]) {
        assert(r == scan_order()[2]);
    } else {
        assert(r == scan_order()[3]);
    }
}

/// Classifying the same vector again, starting from the result of the first
/// classification, gives that result again.
pub proof fn lemma_classify_idempotent(
    x: int,
    y: int,
    threshold: int,
    previous: AbsoluteOrientation,
)
    ensures
        classify_spec(x, y, threshold, classify_spec(x, y, threshold, previous)) == classify_spec(
            x,
            y,
            threshold,
            previous,
        ),
{
}

/// A vector that is near no orientation leaves the previous one in place.
pub proof fn lemma_classify_retains(
    x: int,
    y: int,
    threshold: int,
    previous: AbsoluteOrientation,
)
    requires
        forall|kind: AbsoluteOrientation| !near(x, y, threshold, kind),
    ensures
        classify_spec(x, y, threshold, previous) == previous,
{
    assert(!near(x, y, threshold, AbsoluteOrientation::Normal));
    assert(!near(x, y, threshold, AbsoluteOrientation::Flipped));
    assert(!near(x, y, threshold, AbsoluteOrientation::RightUp));
    assert(!near(x, y, threshold, AbsoluteOrientation::LeftUp));
}

/// The squared distances of a point from two different orientations add up
/// to at least one squared unit: no point is close to both.
pub proof fn lemma_orientations_are_apart(
    x: int,
    y: int,
    first: AbsoluteOrientation,
    second: AbsoluteOrientation,
)
    requires
        first != second,
    ensures
        sq_dist(x, y, canonical_vector(first)) + sq_dist(x, y, canonical_vector(second)) >= UNIT
            * UNIT,
{
    let u = UNIT as int;
    let a = canonical_vector(first);
    let b = canonical_vector(second);
    assert((x - a.0) * (x - a.0) + (y - a.1) * (y - a.1) + (x - b.0) * (x - b.0) + (y - b.1) * (y
        - b.1) >= u * u) by (nonlinear_arith)
        requires
            u == 1_000_000,
            (a.0 == 0 && (a.1 == u || a.1 == -u)) || (a.1 == 0 && (a.0 == u || a.0 == -u)),
            (b.0 == 0 && (b.1 == u || b.1 == -u)) || (b.1 == 0 && (b.0 == u || b.0 == -u)),
            a.0 != b.0 || a.1 != b.1,
    ;
}

/// With a threshold of at most the square root of one half, and so with the
/// default one, a vector is near at most one orientation: the order of the
/// table then makes no difference, and a vector that is near an orientation
/// is classified as that orientation.
pub proof fn lemma_small_threshold_is_unambiguous(
    x: int,
    y: int,
    threshold: int,
    previous: AbsoluteOrientation,
    kind: AbsoluteOrientation,
)
    requires
        2 * threshold * threshold <= UNIT * UNIT,
        near(x, y, threshold, kind),
    ensures
        forall|other: AbsoluteOrientation| other != kind ==> !near(x, y, threshold, other),
        classify_spec(x, y, threshold, previous) == kind,
{
    assert forall|other: AbsoluteOrientation| other != kind implies !near(
        x,
        y,
        threshold,
        other,
    ) by {
        lemma_orientations_are_apart(x, y, kind, other);
        assert(2 * threshold * threshold == 2 * (threshold * threshold)) by (nonlinear_arith);
    }
    lemma_classify_unique(x, y, threshold, previous, kind);
}

/// The default threshold is small enough for that.
pub proof fn lemma_default_threshold_is_small()
    ensures
        2 * DEFAULT_THRESHOLD * DEFAULT_THRESHOLD <= UNIT * UNIT,
{
}

} // verus!
