use compute_renderer::camera::CameraMode;
use compute_renderer::effect::{EffectChoice, EffectChoiceError, WaveDirection};
use compute_renderer::performance::{average_memory_usage, CollectorSchedule, CollectorStep};
use compute_renderer::scene::{benchmark_start, scene_name, CameraRig};
use compute_renderer::window::{advance_scene, BackendType, InputState};

#[test]
fn camera_mode_names() {
    assert_eq!(CameraMode::from_name("first-person"), Some(CameraMode::FirstPerson));
    assert_eq!(CameraMode::from_name("orbit"), Some(CameraMode::Orbit));
    assert_eq!(CameraMode::from_name("Orbit"), None);
    assert_eq!(CameraMode::from_name(""), None);
}

#[test]
fn backend_names_and_labels() {
    assert_eq!(BackendType::from_name("wgpu"), Some(BackendType::WgpuPipeline));
    assert_eq!(BackendType::from_name("custom"), Some(BackendType::CustomPipeline));
    assert_eq!(BackendType::from_name("vulkan"), None);
    assert_eq!(BackendType::WgpuPipeline.to_string(), "WGPU");
    assert_eq!(BackendType::CustomPipeline.to_string(), "Custom");
}

#[test]
fn scene_names() {
    assert_eq!(
        scene_name("suzanne.obj", BackendType::CustomPipeline),
        "Scene suzanne.obj - Custom Pipeline"
    );
    assert_eq!(
        scene_name("exterior/Exterior.obj", BackendType::WgpuPipeline),
        "Scene exterior/Exterior.obj - WGPU Pipeline"
    );
}

#[test]
fn effect_requests() {
    assert_eq!(EffectChoice::from_request("voxelize", 9), Ok(EffectChoice::Voxelize));
    assert_eq!(EffectChoice::from_request("edge_melt", 0), Ok(EffectChoice::EdgeMelt));
    assert_eq!(EffectChoice::from_request("mirage", 0), Ok(EffectChoice::Mirage));
    assert_eq!(
        EffectChoice::from_request("wave", 0),
        Ok(EffectChoice::Wave(WaveDirection::Vertical))
    );
    assert_eq!(
        EffectChoice::from_request("wave", 1),
        Ok(EffectChoice::Wave(WaveDirection::Horizontal))
    );
    assert_eq!(
        EffectChoice::from_request("wave", 2),
        Ok(EffectChoice::Wave(WaveDirection::Radial))
    );
    assert_eq!(
        EffectChoice::from_request("wave", 3),
        Err(EffectChoiceError::InvalidWaveDirection)
    );
    assert_eq!(EffectChoice::from_request("none", 7), Ok(EffectChoice::NoEffect));
    assert_eq!(EffectChoice::from_request("blur", 0), Err(EffectChoiceError::UnknownEffect));
}

#[test]
fn effect_type_numbers() {
    assert_eq!(EffectChoice::NoEffect.effect_type(), 0);
    assert_eq!(EffectChoice::Wave(WaveDirection::Radial).effect_type(), 1);
    assert_eq!(EffectChoice::EdgeMelt.effect_type(), 2);
    assert_eq!(EffectChoice::Voxelize.effect_type(), 3);
    assert_eq!(EffectChoice::Mirage.effect_type(), 4);
}

#[test]
fn wave_direction_codes_round_trip() {
    for d in [WaveDirection::Vertical, WaveDirection::Horizontal, WaveDirection::Radial] {
        assert_eq!(WaveDirection::from_code(d.code()), Some(d));
    }
    assert_eq!(WaveDirection::Horizontal.code(), 1);
    assert_eq!(WaveDirection::from_code(3), None);
    assert_eq!(WaveDirection::from_code(u32::MAX), None);
}

#[test]
fn scenes_advance_until_the_last() {
    assert_eq!(advance_scene(0, 8), (1, true));
    assert_eq!(advance_scene(6, 8), (7, true));
    assert_eq!(advance_scene(7, 8), (8, false));
    assert_eq!(advance_scene(0, 1), (1, false));
}

#[test]
fn benchmark_offsets() {
    assert_eq!(benchmark_start(0, 8), Some(0));
    assert_eq!(benchmark_start(7, 8), Some(7));
    assert_eq!(benchmark_start(8, 8), None);
    assert_eq!(benchmark_start(0, 0), None);
}

#[test]
fn keys_press_and_release() {
    let mut input = InputState::new();
    assert!(!input.is_key_down(17));
    input.press_key(17);
    input.press_key(4);
    assert!(input.is_key_down(17));
    assert!(input.is_key_down(4));
    input.press_key(17);
    input.release_key(17);
    assert!(!input.is_key_down(17));
    assert!(input.is_key_down(4));
    input.release_key(99);
    assert!(input.is_key_down(4));
}

#[test]
fn mouse_button_controls_panning() {
    let mut input = InputState::new();
    assert!(!input.pans_camera());
    input.set_mouse_pressed(true);
    assert!(input.pans_camera());
    input.press_key(1);
    assert!(input.pans_camera());
    input.set_mouse_pressed(false);
    assert!(!input.pans_camera());
    assert!(input.is_key_down(1));
}

#[test]
fn camera_rig_selects_the_active_camera() {
    let mut rig: CameraRig<&str> = CameraRig::new();
    assert_eq!(rig.get_active_camera(), None);
    rig.add_camera("front");
    assert_eq!(rig.get_active_camera(), None);
    rig.set_active_camera(0);
    assert_eq!(rig.get_active_camera(), Some(&"front"));
    rig.add_camera("side");
    rig.set_active_camera(1);
    assert_eq!(rig.get_active_camera(), Some(&"side"));
    rig.set_active_camera(5);
    assert_eq!(rig.get_active_camera(), None);
    assert!(rig.get_active_camera_mut().is_none());
}

#[test]
fn camera_rig_changes_the_active_camera_in_place() {
    let mut rig: CameraRig<u32> = CameraRig::new();
    rig.add_camera(10);
    rig.add_camera(20);
    rig.set_active_camera(1);
    if let Some(c) = rig.get_active_camera_mut() {
        *c += 5;
    }
    assert_eq!(rig.get_active_camera(), Some(&25));
    rig.set_active_camera(0);
    assert_eq!(rig.get_active_camera(), Some(&10));
}

#[test]
fn collector_settles_then_samples_until_the_end() {
    let mut s = CollectorSchedule::new(30_000_000_000);
    assert_eq!(s.update(123), CollectorStep::Started);
    assert_eq!(s.update(0), CollectorStep::Settling);
    assert_eq!(s.update(1_999_999_999), CollectorStep::Settling);
    assert_eq!(s.update(2_000_000_000), CollectorStep::Sampled { finished: false });
    assert_eq!(s.update(31_999_999_999), CollectorStep::Sampled { finished: false });
    assert_eq!(s.update(32_000_000_000), CollectorStep::Sampled { finished: true });
}

#[test]
fn collector_with_the_longest_benchmark_saturates() {
    let max = std::time::Duration::MAX.as_nanos();
    let mut s = CollectorSchedule::new(std::time::Duration::from_secs(u64::MAX).as_nanos());
    assert_eq!(s.update(0), CollectorStep::Started);
    assert_eq!(s.update(max - 1), CollectorStep::Sampled { finished: false });
    assert_eq!(s.update(max), CollectorStep::Sampled { finished: true });
}

#[test]
fn collector_reports_once() {
    let mut s = CollectorSchedule::new(0);
    assert!(s.finalise());
    assert!(!s.finalise());
    assert!(!s.finalise());
}

#[test]
fn memory_average() {
    assert_eq!(average_memory_usage(&vec![]), 0);
    assert_eq!(average_memory_usage(&vec![5]), 5);
    assert_eq!(average_memory_usage(&vec![1, 2, 4]), 2);
    assert_eq!(average_memory_usage(&vec![u64::MAX / 2, u64::MAX / 2]), u64::MAX / 2);
}
