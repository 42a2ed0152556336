//! From raw accelerometer readings to the normalized vector that the
//! classifier takes: per-axis inversion, the choice of the two axes that
//! count, and normalization to fixed-point.

use crate::classifier::{classify, selected, Orientation, UNIT};
use crate::orientation::AbsoluteOrientation;
use crate::text::{characters, parse_integer, parsed_integer};
use vstd::prelude::*;
use vstd::string::StrSliceExecFns;

verus! {

/// How the hardware axes map to the internal `x` and `y`.
#[derive(Copy, Clone, Debug)]
pub struct AxisMap {
    /// Invert the readings of the hardware x axis.
    pub flip_x: bool,
    /// Invert the readings of the hardware y axis.
    pub flip_y: bool,
    /// Invert the readings of the hardware z axis.
    pub flip_z: bool,
    /// Hardware axis that feeds the internal x: `'y'`, `'z'`, anything else is x.
    pub x_source: char,
    /// Hardware axis that feeds the internal y: `'x'`, `'z'`, anything else is y.
    pub y_source: char,
}

/// One raw reading of the three hardware axes.
#[derive(Copy, Clone, Debug)]
pub struct Reading {
    pub x: i32,
    pub y: i32,
    pub z: i32,
}

/// A reading with its sign inverted where asked for.
pub open spec fn flipped(value: int, flip: bool) -> int {
    if flip {
        -value
    } else {
        value
    }
}

impl AxisMap {
    /// The identity map: no inversion, x feeds x and y feeds y.
    pub fn identity() -> (map: AxisMap)
        ensures
            !map.flip_x && !map.flip_y && !map.flip_z,
            map.x_source == 'x',
            map.y_source == 'y',
    {
        AxisMap { flip_x: false, flip_y: false, flip_z: false, x_source: 'x', y_source: 'y' }
    }

    /// The internal x of `reading`, as a mathematical integer.
    pub open spec fn x_of(self, reading: Reading) -> int {
        if self.x_source == 'y' {
            flipped(reading.y as int, self.flip_y)
        } else if self.x_source == 'z' {
            flipped(reading.z as int, self.flip_z)
        } else {
            flipped(reading.x as int, self.flip_x)
        }
    }

    /// The internal y of `reading`, as a mathematical integer.
    pub open spec fn y_of(self, reading: Reading) -> int {
        if self.y_source == 'x' {
            flipped(reading.x as int, self.flip_x)
        } else if self.y_source == 'z' {
            flipped(reading.z as int, self.flip_z)
        } else {
            flipped(reading.y as int, self.flip_y)
        }
    }

    /// Applies the inversions, then picks the two axes that count.
    pub fn project(&self, reading: Reading) -> (v: (i64, i64))
        ensures
            v.0 == self.x_of(reading),
            v.1 == self.y_of(reading),
    {
        let mut_x: i64 = if self.flip_x {
            -(reading.x as i64)
        } else {
            reading.x as i64
        };
        let mut_y: i64 = if self.flip_y {
            -(reading.y as i64)
        } else {
            reading.y as i64
        };
        let mut_z: i64 = if self.flip_z {
            -(reading.z as i64)
        } else {
            reading.z as i64
        };
        let x: i64 = if self.x_source == 'y' {
            mut_y
        } else if self.x_source == 'z' {
            mut_z
        } else {
            mut_x
        };
        let y: i64 = if self.y_source == 'x' {
            mut_x
        } else if self.y_source == 'z' {
            mut_z
        } else {
            mut_y
        };
        (x, y)
    }
}

/// Quotient of `a` by `b` rounded towards zero.
pub open spec fn div_toward_zero(a: int, b: int) -> int
    recommends
        b != 0,
{
    if a >= 0 {
        a / b
    } else {
        -((-a) / b)
    }
}

/// A normalization factor, as a fraction: readings are divided by
/// `numerator / denominator`. A whole factor has the denominator 1.
#[derive(Copy, Clone, Debug, PartialEq, Eq, Structural)]
pub struct Factor {
    pub numerator: i64,
    pub denominator: u32,
}

impl Factor {
    /// The whole factor `n`.
    pub fn whole(n: i64) -> (factor: Factor)
        ensures
            factor == (Factor { numerator: n, denominator: 1 }),
    {
        Factor { numerator: n, denominator: 1 }
    }

    /// Holds of a factor that one can divide by: neither part is zero.
    pub open spec fn is_usable(self) -> bool {
        self.numerator != 0 && self.denominator != 0
    }
}

/// The fixed-point value of `component / factor`, rounded towards zero.
pub open spec fn normalized(component: int, factor: Factor) -> int
    recommends
        factor.is_usable(),
{
    div_toward_zero(component * UNIT * factor.denominator, factor.numerator as int)
}

/// Holds when `component / factor` has a fixed-point value.
pub open spec fn normalizable(component: int, factor: Factor) -> bool {
    factor.is_usable() && i64::MIN <= normalized(component, factor) <= i64::MAX
}

/// Normalizes one component of a projected reading by `factor`. There is no
/// result for a factor with a part of zero, nor where the quotient leaves
/// the range of the fixed-point type.
pub fn normalize(component: i64, factor: Factor) -> (n: Option<i64>)
    ensures
        n.is_some() == normalizable(component as int, factor),
        n.is_some() ==> n.unwrap() == normalized(component as int, factor),
{
    if factor.numerator == 0 || factor.denominator == 0 {
        return None;
    }
    assert(i64::MIN * 1_000_000 <= component * UNIT <= i64::MAX * 1_000_000) by (nonlinear_arith)
        requires
            i64::MIN <= component <= i64::MAX,
            UNIT == 1_000_000,
    ;
    let scaled: i128 = component as i128 * UNIT as i128;
    assert(i64::MIN * 1_000_000 * 0x1_0000_0000 <= scaled * factor.denominator <= i64::MAX
        * 1_000_000 * 0x1_0000_0000) by (nonlinear_arith)
        requires
            i64::MIN * 1_000_000 <= scaled <= i64::MAX * 1_000_000,
            0 <= factor.denominator < 0x1_0000_0000,
    ;
    let widened: i128 = scaled * factor.denominator as i128;
    proof {
        lemma_div_toward_zero_bounded(widened as int, factor.numerator as int);
    }
    let quotient: i128 = widened / factor.numerator as i128;
    if quotient < i64::MIN as i128 || quotient > i64::MAX as i128 {
        None
    } else {
        Some(quotient as i64)
    }
}

/// The normalized vector of a reading, where both components have one.
pub open spec fn normalized_vector(map: AxisMap, reading: Reading, factor: Factor) -> Option<
    (int, int),
> {
    if normalizable(map.x_of(reading), factor) && normalizable(map.y_of(reading), factor) {
        Some((normalized(map.x_of(reading), factor), normalized(map.y_of(reading), factor)))
    } else {
        None
    }
}

/// The orientation that a raw reading selects: the reading is projected
/// through `map`, normalized by `factor` and looked up in the table. A
/// reading that cannot be normalized selects nothing.
pub open spec fn classify_reading_spec(
    map: AxisMap,
    reading: Reading,
    factor: Factor,
    threshold: int,
) -> Option<AbsoluteOrientation> {
    match normalized_vector(map, reading, factor) {
        Some(v) => selected(v.0, v.1, threshold),
        None => None,
    }
}

/// Classifies a raw reading: inversion and axis choice, normalization by
/// `factor`, then the scan of the orientation table.
pub fn classify_reading(
    map: &AxisMap,
    reading: Reading,
    factor: Factor,
    threshold: i64,
    previous: Orientation,
) -> (o: Orientation)
    ensures
        match classify_reading_spec(*map, reading, factor, threshold as int) {
            Some(kind) => o.kind == kind && o.is_canonical(),
            None => o == previous,
        },
{
    let v = map.project(reading);
    match normalize(v.0, factor) {
        Some(x) => match normalize(v.1, factor) {
            Some(y) => classify(x, y, threshold, previous),
            None => previous,
        },
        None => previous,
    }
}

/// A quotient rounded towards zero is no larger in magnitude than the dividend.
proof fn lemma_div_toward_zero_bounded(a: int, b: int)
    requires
        b != 0,
    ensures
        a >= 0 ==> -a <= div_toward_zero(a, b) <= a,
        a < 0 ==> a <= div_toward_zero(a, b) <= -a,
{
    let aa = if a >= 0 {
        a
    } else {
        -a
    };
    assert(-aa <= aa / b <= aa) by (nonlinear_arith)
        requires
            aa >= 0,
            b != 0,
    ;
}

/// The sum of the squares of the three components of a reading.
pub open spec fn squared_length(reading: Reading) -> int {
    reading.x * reading.x + reading.y * reading.y + reading.z * reading.z
}

/// Holds when `root` is the square root of `n`, rounded down.
pub open spec fn is_floor_sqrt(n: int, root: int) -> bool {
    0 <= root && root * root <= n < (root + 1) * (root + 1)
}

/// The square root of `n`, rounded down.
pub open spec fn floor_sqrt(n: int) -> int {
    choose|root: int| is_floor_sqrt(n, root)
}

/// A number has at most one square root rounded down.
pub proof fn lemma_floor_sqrt_unique(n: int, a: int, b: int)
    requires
        is_floor_sqrt(n, a),
        is_floor_sqrt(n, b),
    ensures
        a == b,
        floor_sqrt(n) == a,
{
    assert(a == b) by (nonlinear_arith)
        requires
            0 <= a,
            0 <= b,
            a * a <= n < (a + 1) * (a + 1),
            b * b <= n < (b + 1) * (b + 1),
    ;
    let c = floor_sqrt(n);
    assert(a == c) by (nonlinear_arith)
        requires
            0 <= a,
            0 <= c,
            a * a <= n < (a + 1) * (a + 1),
            c * c <= n < (c + 1) * (c + 1),
    ;
}

/// The square root of `n`, rounded down.
pub fn integer_sqrt(n: u64) -> (root: u64)
    ensures
        is_floor_sqrt(n as int, root as int),
        root == floor_sqrt(n as int),
{
    let mut low: u64 = 0;
    let mut high: u64 = 0x1_0000_0000;
    assert(n < 0x1_0000_0000 * 0x1_0000_0000);
    while high - low > 1
        invariant
            low < high <= 0x1_0000_0000,
            low * low <= n < high * high,
        decreases high - low,
    {
        let middle: u64 = low + (high - low) / 2;
        assert(middle * middle <= 0x1_0000_0000 * 0x1_0000_0000) by (nonlinear_arith)
            requires
                0 <= middle <= 0x1_0000_0000,
        ;
        let square: u128 = middle as u128 * middle as u128;
        if square <= n as u128 {
            low = middle;
        } else {
            high = middle;
        }
    }
    proof {
        lemma_floor_sqrt_unique(n as int, low as int, low as int);
    }
    low
}

/// The length of the vector of a reading, rounded down: the factor that
/// normalizes the reading by its own magnitude.
pub fn magnitude(reading: Reading) -> (length: i64)
    ensures
        is_floor_sqrt(squared_length(reading), length as int),
        length == floor_sqrt(squared_length(reading)),
{
    let x: i64 = reading.x as i64;
    let y: i64 = reading.y as i64;
    let z: i64 = reading.z as i64;
    assert(0 <= x * x <= 0x4000_0000_0000_0000) by (nonlinear_arith)
        requires
            -0x8000_0000 <= x <= 0x7fff_ffff,
    ;
    assert(0 <= y * y <= 0x4000_0000_0000_0000) by (nonlinear_arith)
        requires
            -0x8000_0000 <= y <= 0x7fff_ffff,
    ;
    assert(0 <= z * z <= 0x4000_0000_0000_0000) by (nonlinear_arith)
        requires
            -0x8000_0000 <= z <= 0x7fff_ffff,
    ;
    let sum: u64 = (x * x) as u64 + (y * y) as u64 + (z * z) as u64;
    let root = integer_sqrt(sum);
    assert(root < 0x1_0000_0000) by (nonlinear_arith)
        requires
            root * root <= sum,
            sum <= 0xC000_0000_0000_0000,
            root >= 0,
    ;
    root as i64
}

/// `text` without the line feeds at its end.
pub open spec fn without_trailing_newlines(text: Seq<char>) -> Seq<char>
    decreases text.len(),
{
    if text.len() > 0 && text.last() == '\n' {
        without_trailing_newlines(text.drop_last())
    } else {
        text
    }
}

/// The reading that the text of a sensor file stands for: the decimal
/// integer before the line feeds at the end, or zero where there is none
/// that fits.
pub open spec fn reading_of_text(text: Seq<char>) -> int {
    match parsed_integer(without_trailing_newlines(text)) {
        Some(v) => if i32::MIN <= v <= i32::MAX {
            v as int
        } else {
            0
        },
        None => 0,
    }
}

/// Reads one raw value from the text of a sensor file. Text that is no
/// number counts as zero.
pub fn parse_reading(text: &str) -> (value: i32)
    ensures
        value == reading_of_text(text@),
{
    let chars = characters(text);
    let mut end: usize = chars.len();
    assert(text@.take(end as int) == text@);
    while end > 0 && chars[end - 1] == '\n'
        invariant
            chars@ == text@,
            end <= chars.len(),
            without_trailing_newlines(text@) == without_trailing_newlines(text@.take(end as int)),
        decreases end,
    {
        proof {
            let shown = text@.take(end as int);
            assert(shown.last() == chars@[end - 1]);
            assert(shown.drop_last() == text@.take(end - 1));
        }
        end = end - 1;
    }
    proof {
        let shown = text@.take(end as int);
        if end > 0 {
            assert(shown.last() == chars@[end - 1]);
        }
        assert(without_trailing_newlines(shown) == shown);
        assert(shown == text@.subrange(0, end as int));
    }
    let trimmed = text.substring_char(0, end);
    match parse_integer(trimmed) {
        Some(v) => if v < i32::MIN as i64 || v > i32::MAX as i64 {
            0
        } else {
            v as i32
        },
        None => 0,
    }
}

} // verus!
