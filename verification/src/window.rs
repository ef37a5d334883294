//! The rendering backend choice, the order in which configured scenes are run,
//! and the keyboard and mouse state that the window keeps between events.
use vstd::prelude::*;
use vstd::string::*;
use std::collections::HashSet;
use crate::text::str_eq;

verus! {

/// Which renderer draws the scene.
#[derive(Clone, Copy, Debug, PartialEq, Eq)]
pub enum BackendType {
    /// The fixed-function raster pipeline of the graphics API.
    WgpuPipeline,
    /// The software rasterizer built from compute shaders.
    CustomPipeline,
}

/// The label under which a backend is shown in window titles and reports.
pub open spec fn backend_label(b: BackendType) -> Seq<char> {
    match b {
        BackendType::WgpuPipeline => "WGPU"@,
        BackendType::CustomPipeline => "Custom"@,
    }
}

/// The backend that a command-line name selects, if it names one.
pub open spec fn backend_named(name: Seq<char>) -> Option<BackendType> {
    if name == "wgpu"@ {
        Some(BackendType::WgpuPipeline)
    } else if name == "custom"@ {
        Some(BackendType::CustomPipeline)
    } else {
        None
    }
}

impl BackendType {
    /// The backend's label: `WGPU` or `Custom`.
    pub fn to_string(&self) -> (label: String)
        ensures
            label@ == backend_label(*self),
    {
        match self {
            BackendType::WgpuPipeline => String::from_str("WGPU"),
            BackendType::CustomPipeline => String::from_str("Custom"),
        }
    }

    /// Reads a command-line backend name: `wgpu` or `custom`.
    pub fn from_name(name: &str) -> (b: Option<BackendType>)
        ensures
            b == backend_named(name@),
    {
        if str_eq(name, "wgpu") {
            Some(BackendType::WgpuPipeline)
        } else if str_eq(name, "custom") {
            Some(BackendType::CustomPipeline)
        } else {
            None
        }
    }
}

/// Moves on from scene `current` of `scene_count` configured scenes: the new
/// scene index, and whether a scene with that index exists (otherwise the run
/// is over).
pub fn advance_scene(current: usize, scene_count: usize) -> (next: (usize, bool))
    requires
        current < usize::MAX,
    ensures
        next.0 == current + 1,
        next.1 == (current + 1 < scene_count),
{
    let index = current + 1;
    (index, index < scene_count)
}

/// The keys held down and whether the left mouse button is held, as the
/// window's events leave them.
pub struct InputState {
    keys_down: HashSet<u32>,
    mouse_pressed: bool,
}

impl InputState {
    /// The keys held down.
    pub closed spec fn keys(&self) -> Set<u32> {
        self.keys_down@
    }

    /// Whether the left mouse button is held.
    pub closed spec fn mouse_down(&self) -> bool {
        self.mouse_pressed
    }

    /// No key and no button held.
    pub fn new() -> (s: InputState)
        ensures
            s.keys() == Set::<u32>::empty(),
            !s.mouse_down(),
    {
        InputState { keys_down: HashSet::new(), mouse_pressed: false }
    }

    /// A key went down.
    pub fn press_key(&mut self, key: u32)
        ensures
            final(self).keys() == old(self).keys().insert(key),
            final(self).mouse_down() == old(self).mouse_down(),
    {
        broadcast use vstd::std_specs::hash::group_hash_axioms;

        self.keys_down.insert(key);
    }

    /// A key came up.
    pub fn release_key(&mut self, key: u32)
        ensures
            final(self).keys() == old(self).keys().remove(key),
            final(self).mouse_down() == old(self).mouse_down(),
    {
        broadcast use vstd::std_specs::hash::group_hash_axioms;

        self.keys_down.remove(&key);
    }

    /// Whether `key` is held down.
    pub fn is_key_down(&self, key: u32) -> (down: bool)
        ensures
            down == self.keys().contains(key),
    {
        broadcast use vstd::std_specs::hash::group_hash_axioms;

        self.keys_down.contains(&key)
    }

    /// The left mouse button went down or came up.
    pub fn set_mouse_pressed(&mut self, pressed: bool)
        ensures
            final(self).mouse_down() == pressed,
            final(self).keys() == old(self).keys(),
    {
        self.mouse_pressed = pressed;
    }

    /// Whether mouse motion pans the camera: only while the left button is held.
    pub fn pans_camera(&self) -> (pans: bool)
        ensures
            pans == self.mouse_down(),
    {
        self.mouse_pressed
    }
}

/// A key is down after it is pressed and up after it is released, whatever
/// happened before, and pressing or releasing one key leaves every other key
/// as it was.
pub proof fn lemma_key_press_release(keys: Set<u32>, key: u32, other: u32)
    requires
        other != key,
    ensures
        keys.insert(key).contains(key),
        !keys.remove(key).contains(key),
        !keys.insert(key).remove(key).contains(key),
        keys.insert(key).contains(other) == keys.contains(other),
        keys.remove(key).contains(other) == keys.contains(other),
{
}

} // verus!
