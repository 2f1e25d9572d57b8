//! The skybox's cube map: which face goes where.

use vstd::prelude::*;

verus! {

/// The six encoded images of a cube map, by the direction each faces.
pub struct CubemapData<'a> {
    pub up: &'a [u8],
    pub down: &'a [u8],
    pub front: &'a [u8],
    pub back: &'a [u8],
    pub right: &'a [u8],
    pub left: &'a [u8],
}

impl<'a> CubemapData<'a> {
    /// The faces in the order a cube texture takes them: right, left, up,
    /// down, front, back.
    pub fn as_array(self) -> (faces: [&'a [u8]; 6])
        ensures
            faces@ == seq![self.right, self.left, self.up, self.down, self.front, self.back],
    {
        let faces = [self.right, self.left, self.up, self.down, self.front, self.back];
        assert(faces@ =~= seq![
            self.right,
            self.left,
            self.up,
            self.down,
            self.front,
            self.back,
        ]);
        faces
    }
}

} // verus!
