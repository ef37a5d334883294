//! How the camera moves, and the choice of it on the command line.
use vstd::prelude::*;
use crate::text::str_eq;

verus! {

/// How the camera is driven: orbiting a target on its own, or flown in first
/// person.
#[derive(Clone, Copy, Debug, PartialEq, Eq)]
pub enum CameraMode {
    Orbit,
    FirstPerson,
}

/// The camera mode that a command-line name selects, if it names one.
pub open spec fn camera_mode_named(name: Seq<char>) -> Option<CameraMode> {
    if name == "first-person"@ {
        Some(CameraMode::FirstPerson)
    } else if name == "orbit"@ {
        Some(CameraMode::Orbit)
    } else {
        None
    }
}

impl CameraMode {
    /// Reads a command-line camera mode: `first-person` or `orbit`.
    pub fn from_name(name: &str) -> (mode: Option<CameraMode>)
        ensures
            mode == camera_mode_named(name@),
    {
        if str_eq(name, "first-person") {
            Some(CameraMode::FirstPerson)
        } else if str_eq(name, "orbit") {
            Some(CameraMode::Orbit)
        } else {
            None
        }
    }
}

} // verus!
