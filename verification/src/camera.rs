use vstd::prelude::*;

verus! {

/// Where the camera stands with respect to the spaceship.
#[derive(Clone, Copy, Debug, PartialEq, Eq, Structural)]
pub enum CameraPositioning {
    /// The camera follows the spaceship.
    Synchronized,
    /// The camera runs ahead of the spaceship, in the direction it faces.
    Ahead,
}

impl CameraPositioning {
    /// The positioning after a frame: the camera key switches between the two.
    pub fn update(self, camera_key_pressed: bool) -> (p: CameraPositioning)
        ensures
            !camera_key_pressed ==> p == self,
            camera_key_pressed ==> p != self,
    {
        if camera_key_pressed {
            match self {
                CameraPositioning::Synchronized => CameraPositioning::Ahead,
                CameraPositioning::Ahead => CameraPositioning::Synchronized,
            }
        } else {
            self
        }
    }
}

} // verus!
