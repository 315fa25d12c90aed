use vstd::prelude::*;

verus! {

/// The editing granularity of the tool; exactly one is active at a time.
#[derive(Clone, Copy, Debug, PartialEq, Eq, Structural)]
pub enum BuildMode {
    Object,
    Vertex,
    Face,
    Edge,
}

/// The integer carried by the mode-change signals for each mode.
pub open spec fn mode_value(m: BuildMode) -> i64 {
    match m {
        BuildMode::Object => 0,
        BuildMode::Vertex => 1,
        BuildMode::Face => 2,
        BuildMode::Edge => 3,
    }
}

/// The mode that a signal value selects; a value that names no mode selects `Vertex`.
pub open spec fn mode_of_value(value: i64) -> BuildMode {
    if value == 0 {
        BuildMode::Object
    } else if value == 2 {
        BuildMode::Face
    } else if value == 3 {
        BuildMode::Edge
    } else {
        BuildMode::Vertex
    }
}

impl BuildMode {
    pub fn value(&self) -> (r: i64)
        ensures
            r == mode_value(*self),
    {
        match *self {
            BuildMode::Object => 0,
            BuildMode::Vertex => 1,
            BuildMode::Face => 2,
            BuildMode::Edge => 3,
        }
    }

    pub fn set(&self, value: i64) -> (r: BuildMode)
        ensures
            r == mode_of_value(value),
    {
        match value {
            0 => BuildMode::Object,
            1 => BuildMode::Vertex,
            2 => BuildMode::Face,
            3 => BuildMode::Edge,
            _ => BuildMode::Vertex,
        }
    }
}

} // verus!
