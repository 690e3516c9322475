//! Scene parameters, fixed for one run.

use vstd::prelude::*;

verus! {

/// Largest number of primitives the distance field ever iterates over.
pub const MAX_CUBES: u32 = 128;

/// The primitive count the scene works with when `requested` primitives were
/// asked for.
pub open spec fn clamped_count(requested: u32) -> u32 {
    if requested > MAX_CUBES {
        MAX_CUBES
    } else {
        requested
    }
}

/// Clamps a requested primitive count to [`MAX_CUBES`]. A larger request is
/// not an error: it is cut down to the limit.
pub fn effective_cube_count(requested: u32) -> (count: u32)
    ensures
        count == clamped_count(requested),
        count <= MAX_CUBES,
        requested > MAX_CUBES ==> count == MAX_CUBES,
        requested <= MAX_CUBES ==> count == requested,
{
    if requested > MAX_CUBES {
        MAX_CUBES
    } else {
        requested
    }
}

/// What a set of scene parameters holds. `size`, `speed` and the three colour
/// channels are binary32 bit patterns; they are handed on to the shading
/// stage as they are.
pub struct SceneModel {
    pub cube_count: u32,
    pub size: u32,
    pub speed: u32,
    pub red: u32,
    pub green: u32,
    pub blue: u32,
}

/// The parameters of the scene: how many primitives it has, their half
/// extent, the pace of their motion and their base colour. The primitive count
/// never exceeds [`MAX_CUBES`].
#[derive(Clone, Copy, Debug)]
pub struct SceneParameters {
    cube_count: u32,
    size: u32,
    speed: u32,
    red: u32,
    green: u32,
    blue: u32,
}

impl View for SceneParameters {
    type V = SceneModel;

    closed spec fn view(&self) -> SceneModel {
        SceneModel {
            cube_count: self.cube_count,
            size: self.size,
            speed: self.speed,
            red: self.red,
            green: self.green,
            blue: self.blue,
        }
    }
}

impl SceneParameters {
    #[verifier::type_invariant]
    spec fn within_limit(self) -> bool {
        self.cube_count <= MAX_CUBES
    }

    /// Scene parameters for `requested` primitives, clamped to the limit.
    pub fn new(requested: u32, size: u32, speed: u32, red: u32, green: u32, blue: u32) -> (scene:
        SceneParameters)
        ensures
            scene@ == (SceneModel {
                cube_count: clamped_count(requested),
                size,
                speed,
                red,
                green,
                blue,
            }),
    {
        SceneParameters {
            cube_count: effective_cube_count(requested),
            size,
            speed,
            red,
            green,
            blue,
        }
    }

    /// Number of primitives in the scene.
    pub fn cube_count(&self) -> (count: u32)
        ensures
            count == self@.cube_count,
            count <= MAX_CUBES,
    {
        proof {
            use_type_invariant(self);
        }
        self.cube_count
    }

    /// Half extent of a primitive, as a binary32 bit pattern.
    pub fn size(&self) -> (bits: u32)
        ensures
            bits == self@.size,
    {
        self.size
    }

    /// Pace of the motion, as a binary32 bit pattern.
    pub fn speed(&self) -> (bits: u32)
        ensures
            bits == self@.speed,
    {
        self.speed
    }

    /// Base colour, red first, as binary32 bit patterns.
    pub fn color(&self) -> (bits: [u32; 3])
        ensures
            bits@ == seq![self@.red, self@.green, self@.blue],
    {
        [self.red, self.green, self.blue]
    }
}

} // verus!
