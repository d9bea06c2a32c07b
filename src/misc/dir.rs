//! The four cardinal directions on a grid.

use crate::misc::ivec2::IVec2;
use vstd::prelude::*;

verus! {

/// A cardinal direction, or none.
#[derive(Clone, Copy, PartialEq, Eq, Debug, Structural)]
pub enum Dir {
    Nowhere,
    North,
    East,
    South,
    West,
}

/// `v` held to `-1..=1`.
pub open spec fn unit_clamp(v: i32) -> i32 {
    if v < -1 {
        -1i32
    } else if v > 1 {
        1
    } else {
        v
    }
}

/// The direction of an offset once each coordinate is held to `-1..=1`:
/// straight up, right, down or left, and none for a diagonal or no offset.
pub open spec fn dir_of(v: IVec2) -> Dir {
    let x = unit_clamp(v.x);
    let y = unit_clamp(v.y);
    if x == 0 && y == 1 {
        Dir::North
    } else if x == 1 && y == 0 {
        Dir::East
    } else if x == 0 && y == -1 {
        Dir::South
    } else if x == -1 && y == 0 {
        Dir::West
    } else {
        Dir::Nowhere
    }
}

/// The unit offset of a direction; zero for none.
pub open spec fn offset_of(d: Dir) -> IVec2 {
    match d {
        Dir::North => IVec2 { x: 0, y: 1 },
        Dir::East => IVec2 { x: 1, y: 0 },
        Dir::South => IVec2 { x: 0, y: -1i32 },
        Dir::West => IVec2 { x: -1i32, y: 0 },
        Dir::Nowhere => IVec2 { x: 0, y: 0 },
    }
}

/// What `str::to_lowercase` makes of a string.
pub uninterp spec fn lowercase_of(s: Seq<char>) -> Seq<char>;

/// Relies on `str::to_lowercase`: the result depends on the characters alone.
#[verifier::external_body]
fn to_lowercase(s: &str) -> (r: String)
    ensures
        r@ == lowercase_of(s@),
{
    s.to_lowercase()
}

/// The direction a lower-case name stands for; none for any other text.
pub open spec fn dir_of_name(name: Seq<char>) -> Dir {
    if name == "north"@ {
        Dir::North
    } else if name == "south"@ {
        Dir::South
    } else if name == "east"@ {
        Dir::East
    } else if name == "west"@ {
        Dir::West
    } else {
        Dir::Nowhere
    }
}

impl Dir {
    /// The direction a lower-case name stands for: `north`, `south`, `east`
    /// or `west`; none for any other text.
    pub fn from_lowercase_name(name: &str) -> (r: Dir)
        ensures
            r == dir_of_name(name@),
    {
        let name = name.to_owned();
        if name == "north".to_owned() {
            Dir::North
        } else if name == "south".to_owned() {
            Dir::South
        } else if name == "east".to_owned() {
            Dir::East
        } else if name == "west".to_owned() {
            Dir::West
        } else {
            Dir::Nowhere
        }
    }
}

impl From<String> for Dir {
    /// The direction named, in any case.
    fn from(s: String) -> (r: Dir)
        ensures
            r == dir_of_name(lowercase_of(s@)),
    {
        let lower = to_lowercase(s.as_str());
        Dir::from_lowercase_name(lower.as_str())
    }
}

impl vstd::std_specs::convert::FromSpecImpl<String> for Dir {
    open spec fn obeys_from_spec() -> bool {
        true
    }

    open spec fn from_spec(s: String) -> Dir {
        dir_of_name(lowercase_of(s@))
    }
}

fn clamp_unit(v: i32) -> (r: i32)
    ensures
        r == unit_clamp(v),
{
    if v < -1 {
        -1i32
    } else if v > 1 {
        1
    } else {
        v
    }
}

impl From<IVec2> for Dir {
    fn from(v: IVec2) -> (r: Dir)
        ensures
            r == dir_of(v),
    {
        let x = clamp_unit(v.x);
        let y = clamp_unit(v.y);
        if x == 0 && y == 1 {
            Dir::North
        } else if x == 1 && y == 0 {
            Dir::East
        } else if x == 0 && y == -1 {
            Dir::South
        } else if x == -1 && y == 0 {
            Dir::West
        } else {
            Dir::Nowhere
        }
    }
}

impl vstd::std_specs::convert::FromSpecImpl<IVec2> for Dir {
    open spec fn obeys_from_spec() -> bool {
        true
    }

    open spec fn from_spec(v: IVec2) -> Dir {
        dir_of(v)
    }
}

impl From<Dir> for IVec2 {
    fn from(d: Dir) -> (r: IVec2)
        ensures
            r == offset_of(d),
    {
        match d {
            Dir::North => IVec2::new(0, 1),
            Dir::East => IVec2::new(1, 0),
            Dir::South => IVec2::new(0, -1),
            Dir::West => IVec2::new(-1, 0),
            Dir::Nowhere => IVec2::new(0, 0),
        }
    }
}

impl vstd::std_specs::convert::FromSpecImpl<Dir> for IVec2 {
    open spec fn obeys_from_spec() -> bool {
        true
    }

    open spec fn from_spec(d: Dir) -> IVec2 {
        offset_of(d)
    }
}

/// Every direction maps back to itself through its offset.
pub proof fn lemma_offset_round_trip(d: Dir)
    ensures
        dir_of(offset_of(d)) == d,
{
}

/// The four cardinal directions: north, south, east, west.
pub fn cardinal_dirs() -> (r: Vec<Dir>)
    ensures
        r@ == seq![Dir::North, Dir::South, Dir::East, Dir::West],
{
    let mut v: Vec<Dir> = Vec::new();
    v.push(Dir::North);
    v.push(Dir::South);
    v.push(Dir::East);
    v.push(Dir::West);
    v
}

} // verus!
