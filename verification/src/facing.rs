//! Orientation dimensions and their discrete states.
//!
//! Each dimension (Y-rotation, axis rotation, full rotation, reflection)
//! has a fixed span, an encoding of its states onto `[0, span)`, and a
//! human-readable rendering.  Encoding and decoding are mutually inverse.

use vstd::prelude::*;

verus! {

/// The rotation constraint a `Rotateable` decorator is parameterized by.
#[derive(Clone, Copy, PartialEq, Eq, Structural, Debug)]
pub enum RotDir {
    /// Rotation around the Y axis: North, West, East and South facing.
    Y,
    /// Rotation towards one of the three axes: X, Y, Z.
    Axis,
    /// Rotation towards all six directions.
    All,
}

/// One composable orientation dimension, with a fixed span.
#[derive(Clone, Copy, PartialEq, Eq, Structural, Debug)]
pub enum Dimension {
    /// Y-axis rotation, span 4.
    RotY,
    /// Axis rotation, span 3.
    RotAxis,
    /// Full rotation, span 6.
    RotAll,
    /// Reflection across the xz plane, span 2.
    Reflection,
}

impl Dimension {
    /// The number of distinct states of this dimension.
    pub open spec fn span_spec(self) -> nat {
        match self {
            Dimension::RotY => 4,
            Dimension::RotAxis => 3,
            Dimension::RotAll => 6,
            Dimension::Reflection => 2,
        }
    }

    /// The number of distinct states of this dimension.
    pub fn span(&self) -> (r: usize)
        ensures
            r == self.span_spec(),
    {
        match self {
            Dimension::RotY => 4,
            Dimension::RotAxis => 3,
            Dimension::RotAll => 6,
            Dimension::Reflection => 2,
        }
    }

    /// The dimension a rotation constraint contributes.
    pub open spec fn of_rot_spec(rot: RotDir) -> Dimension {
        match rot {
            RotDir::Y => Dimension::RotY,
            RotDir::Axis => Dimension::RotAxis,
            RotDir::All => Dimension::RotAll,
        }
    }

    /// The dimension a rotation constraint contributes.
    pub fn of_rot(rot: RotDir) -> (r: Dimension)
        ensures
            r == Dimension::of_rot_spec(rot),
    {
        match rot {
            RotDir::Y => Dimension::RotY,
            RotDir::Axis => Dimension::RotAxis,
            RotDir::All => Dimension::RotAll,
        }
    }
}

/// Every dimension has at least one state.
pub proof fn lemma_dimension_span_positive(d: Dimension)
    ensures
        d.span_spec() >= 1,
{
}

/// The states of a block that can be rotated around the Y axis.
#[derive(Clone, Copy, PartialEq, Eq, Structural, Debug)]
pub enum YRotFacing {
    North,
    West,
    East,
    South,
}

impl YRotFacing {
    /// The code of this state within `[0, 4)`.
    pub open spec fn to_id_spec(self) -> int {
        match self {
            YRotFacing::North => 0,
            YRotFacing::West => 1,
            YRotFacing::East => 2,
            YRotFacing::South => 3,
        }
    }

    /// The state a code within `[0, 4)` decodes to.
    pub open spec fn from_id_spec(id: int) -> YRotFacing {
        if id == 0 {
            YRotFacing::North
        } else if id == 1 {
            YRotFacing::West
        } else if id == 2 {
            YRotFacing::East
        } else {
            YRotFacing::South
        }
    }

    /// Decodes a code into a state.
    pub fn from_id(id: usize) -> (r: YRotFacing)
        requires
            id < 4,
        ensures
            r == YRotFacing::from_id_spec(id as int),
    {
        match id {
            0 => YRotFacing::North,
            1 => YRotFacing::West,
            2 => YRotFacing::East,
            _ => YRotFacing::South,
        }
    }

    /// Encodes this state as a code within `[0, 4)`.
    pub fn to_id(&self) -> (r: usize)
        ensures
            r == self.to_id_spec(),
    {
        match self {
            YRotFacing::North => 0,
            YRotFacing::West => 1,
            YRotFacing::East => 2,
            YRotFacing::South => 3,
        }
    }

    /// The number of distinct states: 4.
    pub fn get_id_span() -> (r: usize)
        ensures
            r == 4,
    {
        4
    }

    /// The rendering of this state.
    pub open spec fn to_string_spec(self) -> Seq<char> {
        match self {
            YRotFacing::North => "facing: north"@,
            YRotFacing::West => "facing: west"@,
            YRotFacing::East => "facing: east"@,
            YRotFacing::South => "facing: south"@,
        }
    }

    /// Renders this state as `facing: <direction>`.
    pub fn to_string(&self) -> (r: String)
        ensures
            r@ == self.to_string_spec(),
    {
        match self {
            YRotFacing::North => "facing: north".to_owned(),
            YRotFacing::West => "facing: west".to_owned(),
            YRotFacing::East => "facing: east".to_owned(),
            YRotFacing::South => "facing: south".to_owned(),
        }
    }
}

/// Encoding a Y-rotation state lands in `[0, 4)` and decoding it back
/// returns the same state; decoding any code in `[0, 4)` and re-encoding
/// returns the same code.
pub proof fn lemma_y_rot_bijection(v: YRotFacing, id: int)
    ensures
        0 <= v.to_id_spec() < 4,
        YRotFacing::from_id_spec(v.to_id_spec()) == v,
        0 <= id < 4 ==> YRotFacing::from_id_spec(id).to_id_spec() == id,
{
}

/// The states of a block that can be rotated to point towards an axis.
#[derive(Clone, Copy, PartialEq, Eq, Structural, Debug)]
pub enum AxisRotFacing {
    X,
    Y,
    Z,
}

impl AxisRotFacing {
    /// The code of this state within `[0, 3)`.
    pub open spec fn to_id_spec(self) -> int {
        match self {
            AxisRotFacing::X => 0,
            AxisRotFacing::Y => 1,
            AxisRotFacing::Z => 2,
        }
    }

    /// The state a code within `[0, 3)` decodes to.
    pub open spec fn from_id_spec(id: int) -> AxisRotFacing {
        if id == 0 {
            AxisRotFacing::X
        } else if id == 1 {
            AxisRotFacing::Y
        } else {
            AxisRotFacing::Z
        }
    }

    /// Decodes a code into a state.
    pub fn from_id(id: usize) -> (r: AxisRotFacing)
        requires
            id < 3,
        ensures
            r == AxisRotFacing::from_id_spec(id as int),
    {
        match id {
            0 => AxisRotFacing::X,
            1 => AxisRotFacing::Y,
            _ => AxisRotFacing::Z,
        }
    }

    /// Encodes this state as a code within `[0, 3)`.
    pub fn to_id(&self) -> (r: usize)
        ensures
            r == self.to_id_spec(),
    {
        match self {
            AxisRotFacing::X => 0,
            AxisRotFacing::Y => 1,
            AxisRotFacing::Z => 2,
        }
    }

    /// The number of distinct states: 3.
    pub fn get_id_span() -> (r: usize)
        ensures
            r == 3,
    {
        3
    }

    /// The rendering of this state.
    pub open spec fn to_string_spec(self) -> Seq<char> {
        match self {
            AxisRotFacing::X => "axis: x"@,
            AxisRotFacing::Y => "axis: y"@,
            AxisRotFacing::Z => "axis: z"@,
        }
    }

    /// Renders this state as `axis: <axis>`.
    pub fn to_string(&self) -> (r: String)
        ensures
            r@ == self.to_string_spec(),
    {
        match self {
            AxisRotFacing::X => "axis: x".to_owned(),
            AxisRotFacing::Y => "axis: y".to_owned(),
            AxisRotFacing::Z => "axis: z".to_owned(),
        }
    }
}

/// Encoding an axis-rotation state lands in `[0, 3)` and decoding it back
/// returns the same state; decoding any code in `[0, 3)` and re-encoding
/// returns the same code.
pub proof fn lemma_axis_rot_bijection(v: AxisRotFacing, id: int)
    ensures
        0 <= v.to_id_spec() < 3,
        AxisRotFacing::from_id_spec(v.to_id_spec()) == v,
        0 <= id < 3 ==> AxisRotFacing::from_id_spec(id).to_id_spec() == id,
{
}

/// The states of a block that can be rotated to point in any direction.
#[derive(Clone, Copy, PartialEq, Eq, Structural, Debug)]
pub enum AllRotFacing {
    Up,
    North,
    West,
    East,
    South,
    Down,
}

impl AllRotFacing {
    /// The code of this state within `[0, 6)`.
    pub open spec fn to_id_spec(self) -> int {
        match self {
            AllRotFacing::Up => 0,
            AllRotFacing::North => 1,
            AllRotFacing::West => 2,
            AllRotFacing::East => 3,
            AllRotFacing::South => 4,
            AllRotFacing::Down => 5,
        }
    }

    /// The state a code within `[0, 6)` decodes to.
    pub open spec fn from_id_spec(id: int) -> AllRotFacing {
        if id == 0 {
            AllRotFacing::Up
        } else if id == 1 {
            AllRotFacing::North
        } else if id == 2 {
            AllRotFacing::West
        } else if id == 3 {
            AllRotFacing::East
        } else if id == 4 {
            AllRotFacing::South
        } else {
            AllRotFacing::Down
        }
    }

    /// Decodes a code into a state.
    pub fn from_id(id: usize) -> (r: AllRotFacing)
        requires
            id < 6,
        ensures
            r == AllRotFacing::from_id_spec(id as int),
    {
        match id {
            0 => AllRotFacing::Up,
            1 => AllRotFacing::North,
            2 => AllRotFacing::West,
            3 => AllRotFacing::East,
            4 => AllRotFacing::South,
            _ => AllRotFacing::Down,
        }
    }

    /// Encodes this state as a code within `[0, 6)`.
    pub fn to_id(&self) -> (r: usize)
        ensures
            r == self.to_id_spec(),
    {
        match self {
            AllRotFacing::Up => 0,
            AllRotFacing::North => 1,
            AllRotFacing::West => 2,
            AllRotFacing::East => 3,
            AllRotFacing::South => 4,
            AllRotFacing::Down => 5,
        }
    }

    /// The number of distinct states: 6.
    pub fn get_id_span() -> (r: usize)
        ensures
            r == 6,
    {
        6
    }

    /// The rendering of this state.
    pub open spec fn to_string_spec(self) -> Seq<char> {
        match self {
            AllRotFacing::Up => "direction: up"@,
            AllRotFacing::North => "direction: north"@,
            AllRotFacing::West => "direction: west"@,
            AllRotFacing::East => "direction: east"@,
            AllRotFacing::South => "direction: south"@,
            AllRotFacing::Down => "direction: down"@,
        }
    }

    /// Renders this state as `direction: <direction>`.
    pub fn to_string(&self) -> (r: String)
        ensures
            r@ == self.to_string_spec(),
    {
        match self {
            AllRotFacing::Up => "direction: up".to_owned(),
            AllRotFacing::North => "direction: north".to_owned(),
            AllRotFacing::West => "direction: west".to_owned(),
            AllRotFacing::East => "direction: east".to_owned(),
            AllRotFacing::South => "direction: south".to_owned(),
            AllRotFacing::Down => "direction: down".to_owned(),
        }
    }
}

/// Encoding a full-rotation state lands in `[0, 6)` and decoding it back
/// returns the same state; decoding any code in `[0, 6)` and re-encoding
/// returns the same code.
pub proof fn lemma_all_rot_bijection(v: AllRotFacing, id: int)
    ensures
        0 <= v.to_id_spec() < 6,
        AllRotFacing::from_id_spec(v.to_id_spec()) == v,
        0 <= id < 6 ==> AllRotFacing::from_id_spec(id).to_id_spec() == id,
{
}

/// The states of a block that can be reflected across the xz plane.
#[derive(Clone, Copy, PartialEq, Eq, Structural, Debug)]
pub enum ReflectionFacing {
    Up,
    Down,
}

impl ReflectionFacing {
    /// The code of this state within `[0, 2)`.
    pub open spec fn to_id_spec(self) -> int {
        match self {
            ReflectionFacing::Up => 0,
            ReflectionFacing::Down => 1,
        }
    }

    /// The state a code within `[0, 2)` decodes to.
    pub open spec fn from_id_spec(id: int) -> ReflectionFacing {
        if id == 0 {
            ReflectionFacing::Up
        } else {
            ReflectionFacing::Down
        }
    }

    /// Decodes a code into a state.
    pub fn from_id(id: usize) -> (r: ReflectionFacing)
        requires
            id < 2,
        ensures
            r == ReflectionFacing::from_id_spec(id as int),
    {
        match id {
            0 => ReflectionFacing::Up,
            _ => ReflectionFacing::Down,
        }
    }

    /// Encodes this state as a code within `[0, 2)`.
    pub fn to_id(&self) -> (r: usize)
        ensures
            r == self.to_id_spec(),
    {
        match self {
            ReflectionFacing::Up => 0,
            ReflectionFacing::Down => 1,
        }
    }

    /// The number of distinct states: 2.
    pub fn get_id_span() -> (r: usize)
        ensures
            r == 2,
    {
        2
    }

    /// The rendering of this state.
    pub open spec fn to_string_spec(self) -> Seq<char> {
        match self {
            ReflectionFacing::Up => "spin: up"@,
            ReflectionFacing::Down => "spin: down"@,
        }
    }

    /// Renders this state as `spin: <direction>`.
    pub fn to_string(&self) -> (r: String)
        ensures
            r@ == self.to_string_spec(),
    {
        match self {
            ReflectionFacing::Up => "spin: up".to_owned(),
            ReflectionFacing::Down => "spin: down".to_owned(),
        }
    }
}

/// Encoding a reflection state lands in `[0, 2)` and decoding it back
/// returns the same state; decoding any code in `[0, 2)` and re-encoding
/// returns the same code.
pub proof fn lemma_reflection_bijection(v: ReflectionFacing, id: int)
    ensures
        0 <= v.to_id_spec() < 2,
        ReflectionFacing::from_id_spec(v.to_id_spec()) == v,
        0 <= id < 2 ==> ReflectionFacing::from_id_spec(id).to_id_spec() == id,
{
}

/// One discrete orientation state, tagged with the dimension it belongs to.
#[derive(Clone, Copy, PartialEq, Eq, Structural, Debug)]
pub enum Facing {
    Y(YRotFacing),
    Axis(AxisRotFacing),
    All(AllRotFacing),
    Reflection(ReflectionFacing),
}

impl Facing {
    /// The dimension this state belongs to.
    pub open spec fn dim_spec(self) -> Dimension {
        match self {
            Facing::Y(_) => Dimension::RotY,
            Facing::Axis(_) => Dimension::RotAxis,
            Facing::All(_) => Dimension::RotAll,
            Facing::Reflection(_) => Dimension::Reflection,
        }
    }

    /// The code of this state within its dimension's span.
    pub open spec fn code_spec(self) -> int {
        match self {
            Facing::Y(f) => f.to_id_spec(),
            Facing::Axis(f) => f.to_id_spec(),
            Facing::All(f) => f.to_id_spec(),
            Facing::Reflection(f) => f.to_id_spec(),
        }
    }

    /// The state of dimension `dim` that `code` decodes to.
    pub open spec fn from_code_spec(dim: Dimension, code: int) -> Facing {
        match dim {
            Dimension::RotY => Facing::Y(YRotFacing::from_id_spec(code)),
            Dimension::RotAxis => Facing::Axis(AxisRotFacing::from_id_spec(code)),
            Dimension::RotAll => Facing::All(AllRotFacing::from_id_spec(code)),
            Dimension::Reflection => Facing::Reflection(ReflectionFacing::from_id_spec(code)),
        }
    }

    /// Encodes this state as a code within its dimension's span.
    pub fn code(&self) -> (r: usize)
        ensures
            r == self.code_spec(),
    {
        match self {
            Facing::Y(f) => f.to_id(),
            Facing::Axis(f) => f.to_id(),
            Facing::All(f) => f.to_id(),
            Facing::Reflection(f) => f.to_id(),
        }
    }

    /// Decodes a code into a state of dimension `dim`.
    pub fn from_code(dim: Dimension, code: usize) -> (r: Facing)
        requires
            code < dim.span_spec(),
        ensures
            r == Facing::from_code_spec(dim, code as int),
    {
        match dim {
            Dimension::RotY => Facing::Y(YRotFacing::from_id(code)),
            Dimension::RotAxis => Facing::Axis(AxisRotFacing::from_id(code)),
            Dimension::RotAll => Facing::All(AllRotFacing::from_id(code)),
            Dimension::Reflection => Facing::Reflection(ReflectionFacing::from_id(code)),
        }
    }

    /// The rendering of this state.
    pub open spec fn to_string_spec(self) -> Seq<char> {
        match self {
            Facing::Y(f) => f.to_string_spec(),
            Facing::Axis(f) => f.to_string_spec(),
            Facing::All(f) => f.to_string_spec(),
            Facing::Reflection(f) => f.to_string_spec(),
        }
    }

    /// Renders this state, e.g. `facing: north`.
    pub fn to_string(&self) -> (r: String)
        ensures
            r@ == self.to_string_spec(),
    {
        match self {
            Facing::Y(f) => f.to_string(),
            Facing::Axis(f) => f.to_string(),
            Facing::All(f) => f.to_string(),
            Facing::Reflection(f) => f.to_string(),
        }
    }
}

/// Bijection of one dimension: a state's code lies in `[0, span)` and
/// decodes back to the state; a code in `[0, span)` decodes to a state of
/// that dimension which encodes back to the code.
pub proof fn lemma_facing_bijection(v: Facing, dim: Dimension, code: int)
    ensures
        0 <= v.code_spec() < v.dim_spec().span_spec(),
        Facing::from_code_spec(v.dim_spec(), v.code_spec()) == v,
        0 <= code < dim.span_spec() ==> {
            &&& Facing::from_code_spec(dim, code).dim_spec() == dim
            &&& Facing::from_code_spec(dim, code).code_spec() == code
        },
{
}

} // verus!
