use voxel_renderer::gpu_context::WindowSurface;
use voxel_renderer::state::{
    FrameAction, Phase, State, CAMERA_BIND_GROUP, FRAME_VERTICES, WORLD_BIND_GROUP,
};
use voxel_renderer::world::{SOLID, VOXEL_COUNT};
use wgpu::{
    CompositeAlphaMode, PresentMode, SurfaceCapabilities, SurfaceError, TextureFormat,
    TextureUsages,
};

fn state(width: u32, height: u32) -> State {
    let caps = SurfaceCapabilities {
        formats: vec![TextureFormat::Bgra8UnormSrgb],
        present_modes: vec![PresentMode::Fifo],
        alpha_modes: vec![CompositeAlphaMode::Opaque],
        usages: TextureUsages::RENDER_ATTACHMENT,
    };
    State::new(WindowSurface::new(&caps, width, height).unwrap())
}

fn rendering(width: u32, height: u32) -> State {
    let mut state = state(width, height);
    assert_eq!(state.begin_update(), Some((width as usize, height as usize)));
    assert!(state.begin_render());
    state
}

#[test]
fn new_state_is_ready_with_idle_keys_and_a_solid_world() {
    let state = state(800, 600);
    assert_eq!(state.phase, Phase::Ready);
    assert_eq!(state.display.config.width, 800);
    assert_eq!(state.display.config.height, 600);
    let keys = &state.player_controller;
    assert!(!keys.forward && !keys.backward && !keys.left);
    assert!(!keys.right && !keys.up && !keys.down);
    assert_eq!(state.world.len(), VOXEL_COUNT);
    assert_eq!(state.world.voxel(5, 5, 5), SOLID);
}

#[test]
fn bind_groups_are_camera_then_world() {
    assert_eq!(CAMERA_BIND_GROUP, 0);
    assert_eq!(WORLD_BIND_GROUP, 1);
    assert_eq!(FRAME_VERTICES, 3);
}

#[test]
fn a_presented_frame_runs_through_all_phases() {
    let mut state = state(800, 600);
    assert_eq!(state.begin_update(), Some((800, 600)));
    assert_eq!(state.phase, Phase::Updating);
    assert!(state.begin_render());
    assert_eq!(state.phase, Phase::Rendering);
    assert_eq!(state.finish_render(Ok(())), Some(FrameAction::Continue));
    assert_eq!(state.phase, Phase::Ready);
}

#[test]
fn phases_cannot_be_entered_out_of_turn() {
    let mut state = state(800, 600);
    assert!(!state.begin_render());
    assert_eq!(state.phase, Phase::Ready);
    assert_eq!(state.finish_render(Ok(())), None);
    assert_eq!(state.phase, Phase::Ready);

    assert_eq!(state.begin_update(), Some((800, 600)));
    assert_eq!(state.begin_update(), None);
    assert_eq!(state.phase, Phase::Updating);
    assert_eq!(state.finish_render(Err(SurfaceError::Lost)), None);
    assert_eq!(state.phase, Phase::Updating);

    assert!(state.begin_render());
    assert!(!state.begin_render());
    assert_eq!(state.begin_update(), None);
    assert_eq!(state.phase, Phase::Rendering);
}

#[test]
fn a_lost_surface_asks_for_the_last_known_size() {
    let mut state = rendering(800, 600);
    assert_eq!(
        state.finish_render(Err(SurfaceError::Lost)),
        Some(FrameAction::Recover { width: 800, height: 600 })
    );
    assert_eq!(state.phase, Phase::Lost);
    assert_eq!(state.begin_update(), None);
    assert!(!state.begin_render());
    assert_eq!(state.phase, Phase::Lost);

    let stored = state.display.config.clone();
    assert!(state.resize(800, 600));
    assert_eq!(state.display.config, stored);
    assert_eq!(state.phase, Phase::Ready);
    assert_eq!(state.begin_update(), Some((800, 600)));
}

#[test]
fn a_lost_surface_of_zero_size_recovers_without_configuring() {
    let mut state = rendering(0, 0);
    assert_eq!(
        state.finish_render(Err(SurfaceError::Lost)),
        Some(FrameAction::Recover { width: 0, height: 0 })
    );
    assert_eq!(state.phase, Phase::Lost);
    assert!(!state.resize(0, 0));
    assert_eq!(state.phase, Phase::Ready);
    assert_eq!((state.display.config.width, state.display.config.height), (0, 0));
}

#[test]
fn out_of_memory_shuts_down() {
    let mut state = rendering(800, 600);
    assert_eq!(
        state.finish_render(Err(SurfaceError::OutOfMemory)),
        Some(FrameAction::Shutdown)
    );
    assert_eq!(state.phase, Phase::Ready);
}

#[test]
fn other_errors_skip_the_frame() {
    for error in [SurfaceError::Timeout, SurfaceError::Outdated, SurfaceError::Other] {
        let mut state = rendering(800, 600);
        assert_eq!(state.finish_render(Err(error)), Some(FrameAction::Skip));
        assert_eq!(state.phase, Phase::Ready);
        assert_eq!(state.begin_update(), Some((800, 600)));
    }
}

#[test]
fn resize_keeps_the_phase_unless_lost() {
    let mut state = state(640, 480);
    assert!(state.resize(800, 600));
    assert_eq!(state.phase, Phase::Ready);
    assert_eq!(state.begin_update(), Some((800, 600)));
    assert!(!state.resize(0, 450));
    assert_eq!(state.phase, Phase::Updating);
    assert_eq!((state.display.config.width, state.display.config.height), (800, 600));
    assert!(state.begin_render());
    assert!(state.resize(1024, 768));
    assert_eq!(state.phase, Phase::Rendering);
    assert_eq!(
        state.finish_render(Err(SurfaceError::Lost)),
        Some(FrameAction::Recover { width: 1024, height: 768 })
    );
}
