//! Shared scene resources: the material palette and the square mesh. Both are
//! built once during bootstrap and never mutated afterwards. Assets themselves
//! live with the host's asset store; here a handle is its plain identifier.

use vstd::prelude::*;

verus! {

/// A handle to a material asset held by the host's asset store.
#[derive(Clone, Copy, PartialEq, Eq, Structural, Debug)]
pub struct MaterialHandle(pub u64);

/// A handle to a mesh asset held by the host's asset store.
#[derive(Clone, Copy, PartialEq, Eq, Structural, Debug)]
pub struct MeshHandle(pub u64);

/// The fixed material palette: one handle per semantic color. `blue` is the
/// tracked object's idle material and `red` its hover material.
#[derive(Clone, Copy, PartialEq, Eq, Structural, Debug)]
pub struct Materials {
    pub red: MaterialHandle,
    pub green: MaterialHandle,
    pub yellow: MaterialHandle,
    pub blue: MaterialHandle,
}

/// The single mesh resource: the square drawn by both cameras.
#[derive(Clone, Copy, PartialEq, Eq, Structural, Debug)]
pub struct Square {
    pub mesh: MeshHandle,
}

impl Materials {
    /// Builds the palette from the handles the asset store produced.
    pub fn new(
        red: MaterialHandle,
        green: MaterialHandle,
        yellow: MaterialHandle,
        blue: MaterialHandle,
    ) -> (m: Materials)
        ensures
            m == (Materials { red, green, yellow, blue }),
    {
        Materials { red, green, yellow, blue }
    }
}

impl Default for Materials {
    /// The palette before any handle has been assigned.
    fn default() -> (m: Materials)
        ensures
            m == (Materials {
                red: MaterialHandle(0),
                green: MaterialHandle(0),
                yellow: MaterialHandle(0),
                blue: MaterialHandle(0),
            }),
    {
        Materials {
            red: MaterialHandle(0),
            green: MaterialHandle(0),
            yellow: MaterialHandle(0),
            blue: MaterialHandle(0),
        }
    }
}

impl Square {
    /// Records the handle of the square mesh the asset store produced.
    pub fn new(mesh: MeshHandle) -> (s: Square)
        ensures
            s == (Square { mesh }),
    {
        Square { mesh }
    }
}

impl Default for Square {
    /// The square resource before its mesh has been assigned.
    fn default() -> (s: Square)
        ensures
            s == (Square { mesh: MeshHandle(0) }),
    {
        Square { mesh: MeshHandle(0) }
    }
}

} // verus!
