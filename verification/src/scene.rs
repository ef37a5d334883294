//! Scene bookkeeping that does not depend on geometry or shading: the grid of
//! workgroups over the scene's triangles, the cameras and which one is active,
//! the scene's name, and where a benchmark sequence starts.
use vstd::prelude::*;
use vstd::string::*;
use crate::sizing::{square_grid, square_grid_spec};
use crate::window::{BackendType, backend_label};

verus! {

/// The near-square grid of workgroups over the triangles of a model with
/// `total_indices` indices (three per triangle).
pub fn triangle_grid(total_indices: usize) -> (grid: (u32, u32))
    requires
        total_indices / 3 <= u32::MAX,
    ensures
        square_grid_spec((total_indices / 3) as int, grid.0 as int, grid.1 as int),
        grid.0 * grid.1 >= total_indices / 3,
{
    let total_tris: u32 = (total_indices / 3) as u32;
    square_grid(total_tris)
}

/// The scene's cameras and the index of the active one.
pub struct CameraRig<C> {
    cameras: Vec<C>,
    active_camera: Option<usize>,
}

/// The camera that an active index selects, if it selects one.
pub open spec fn selected_camera<C>(cameras: Seq<C>, active: Option<usize>) -> Option<C> {
    match active {
        Some(i) => if i < cameras.len() {
            Some(cameras[i as int])
        } else {
            None
        },
        None => None,
    }
}

impl<C> CameraRig<C> {
    pub closed spec fn cameras(&self) -> Seq<C> {
        self.cameras@
    }

    pub closed spec fn active(&self) -> Option<usize> {
        self.active_camera
    }

    /// No cameras, none active.
    pub fn new() -> (rig: CameraRig<C>)
        ensures
            rig.cameras() == Seq::<C>::empty(),
            rig.active() == None::<usize>,
    {
        CameraRig { cameras: Vec::new(), active_camera: None }
    }

    /// Adds a camera after the others.
    pub fn add_camera(&mut self, camera: C)
        ensures
            final(self).cameras() == old(self).cameras().push(camera),
            final(self).active() == old(self).active(),
    {
        self.cameras.push(camera);
    }

    /// Makes the camera at `index` the active one.
    pub fn set_active_camera(&mut self, index: usize)
        ensures
            final(self).active() == Some(index),
            final(self).cameras() == old(self).cameras(),
    {
        self.active_camera = Some(index);
    }

    /// The active camera, if an index is set and names a camera.
    pub fn get_active_camera(&self) -> (camera: Option<&C>)
        ensures
            match selected_camera(self.cameras(), self.active()) {
                Some(c) => camera == Some(&c),
                None => camera is None,
            },
    {
        match self.active_camera {
            Some(i) => if i < self.cameras.len() {
                Some(&self.cameras[i])
            } else {
                None
            },
            None => None,
        }
    }

    /// The active camera, to be changed in place.
    pub fn get_active_camera_mut(&mut self) -> (camera: Option<&mut C>)
        ensures
            final(self).active() == old(self).active(),
            selected_camera(old(self).cameras(), old(self).active()) is None ==> camera is None
                && final(self).cameras() == old(self).cameras(),
            selected_camera(old(self).cameras(), old(self).active()) is Some ==> camera is Some
                && *camera->0 == selected_camera(old(self).cameras(), old(self).active())->0
                && final(self).cameras() == old(self).cameras().update(
                old(self).active()->0 as int,
                *final(camera->0),
            ),
    {
        match self.active_camera {
            Some(i) => if i < self.cameras.len() {
                Some(&mut self.cameras[i])
            } else {
                None
            },
            None => None,
        }
    }
}

/// After a camera is added and made active by its index, it is the active
/// camera.
pub proof fn lemma_added_camera_becomes_active<C>(cameras: Seq<C>, camera: C)
    requires
        cameras.len() < usize::MAX,
    ensures
        selected_camera(cameras.push(camera), Some(cameras.len() as usize)) == Some(camera),
{
}

/// The name of a scene in window titles and reports:
/// `Scene <model path> - <backend> Pipeline`.
pub fn scene_name(model_path: &str, backend_type: BackendType) -> (name: String)
    ensures
        name@ == "Scene "@ + model_path@ + " - "@ + backend_label(backend_type) + " Pipeline"@,
{
    let mut name = String::from_str("Scene ");
    name.append(model_path);
    name.append(" - ");
    let label = backend_type.to_string();
    name.append(label.as_str());
    name.append(" Pipeline");
    name
}

/// The scene that a benchmark sequence starts at, if `offset` names one of the
/// `scene_count` scenes.
pub fn benchmark_start(offset: usize, scene_count: usize) -> (start: Option<usize>)
    ensures
        offset < scene_count ==> start == Some(offset),
        offset >= scene_count ==> start is None,
{
    if offset < scene_count {
        Some(offset)
    } else {
        None
    }
}

} // verus!
