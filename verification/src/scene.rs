//! The scene: the meshes to draw, the projection matrix, and the camera.

use vstd::prelude::*;

use crate::camera::Camera;
use crate::matrix4::Matrix4;
use crate::model::Mesh;

verus! {

/// Everything a frame needs: the models, the projection, and the camera.
pub struct Scene {
    pub models: Vec<Mesh>,
    pub projection: Matrix4,
    pub camera: Camera,
}

impl Scene {
    /// Builds the scene that holds exactly the given models, projection and
    /// camera.
    pub fn new(models: Vec<Mesh>, projection: Matrix4, camera: Camera) -> (r: Self)
        ensures
            r.models == models,
            r.projection == projection,
            r.camera == camera,
    {
        Self { models, projection, camera }
    }
}

} // verus!
