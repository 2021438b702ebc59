use voxel_renderer::gpu_context::WindowSurface;
use voxel_renderer::lifecycle::{App, Reaction, WindowInput};
use voxel_renderer::state::{Phase, State};
use wgpu::{CompositeAlphaMode, PresentMode, SurfaceCapabilities, TextureFormat, TextureUsages};
use winit::event::ElementState;
use winit::keyboard::KeyCode;

fn state(width: u32, height: u32) -> State {
    let caps = SurfaceCapabilities {
        formats: vec![TextureFormat::Rgba8Unorm],
        present_modes: vec![PresentMode::Fifo],
        alpha_modes: vec![CompositeAlphaMode::Opaque],
        usages: TextureUsages::RENDER_ATTACHMENT,
    };
    State::new(WindowSurface::new(&caps, width, height).unwrap())
}

fn running(width: u32, height: u32) -> App {
    let mut app = App::new();
    app.resumed(state(width, height));
    app
}

#[test]
fn before_the_window_exists_every_event_is_ignored() {
    let mut app = App::new();
    assert!(app.state.is_none());
    assert!(!app.wants_redraw());
    let inputs = [
        WindowInput::CloseRequested,
        WindowInput::Resized { width: 800, height: 600 },
        WindowInput::RedrawRequested,
        WindowInput::KeyboardInput { key: KeyCode::KeyW, state: ElementState::Pressed },
        WindowInput::Other,
    ];
    for input in inputs {
        assert_eq!(app.window_event(input), Reaction::Ignore);
        assert!(app.state.is_none());
    }
}

#[test]
fn resumed_installs_the_state() {
    let app = running(800, 600);
    assert!(app.wants_redraw());
    let state = app.state.as_ref().unwrap();
    assert_eq!(state.phase, Phase::Ready);
    assert_eq!(state.display.config.width, 800);
}

#[test]
fn close_drops_the_state_and_exits() {
    let mut app = running(800, 600);
    assert_eq!(app.window_event(WindowInput::CloseRequested), Reaction::Exit);
    assert!(app.state.is_none());
    assert!(!app.wants_redraw());
    assert_eq!(app.window_event(WindowInput::CloseRequested), Reaction::Ignore);
}

#[test]
fn resized_window_is_configured_unless_a_side_is_zero() {
    let mut app = running(640, 480);
    assert_eq!(
        app.window_event(WindowInput::Resized { width: 800, height: 600 }),
        Reaction::Configure
    );
    assert_eq!(
        app.window_event(WindowInput::Resized { width: 0, height: 450 }),
        Reaction::Ignore
    );
    let config = &app.state.as_ref().unwrap().display.config;
    assert_eq!((config.width, config.height), (800, 600));
}

#[test]
fn redraw_opens_a_frame_for_the_viewport() {
    let mut app = running(800, 600);
    assert_eq!(
        app.window_event(WindowInput::RedrawRequested),
        Reaction::Frame { width: 800, height: 600 }
    );
    assert_eq!(app.state.as_ref().unwrap().phase, Phase::Updating);
    assert_eq!(app.window_event(WindowInput::RedrawRequested), Reaction::Ignore);
    assert_eq!(app.state.as_ref().unwrap().phase, Phase::Updating);
}

#[test]
fn keys_reach_the_player_controller() {
    let mut app = running(800, 600);
    let reaction = app.window_event(WindowInput::KeyboardInput {
        key: KeyCode::Space,
        state: ElementState::Pressed,
    });
    assert_eq!(reaction, Reaction::Ignore);
    let reaction = app.window_event(WindowInput::KeyboardInput {
        key: KeyCode::KeyA,
        state: ElementState::Pressed,
    });
    assert_eq!(reaction, Reaction::Ignore);
    {
        let keys = &app.state.as_ref().unwrap().player_controller;
        assert!(keys.up && keys.left);
        assert!(!keys.forward && !keys.backward && !keys.right && !keys.down);
    }
    app.window_event(WindowInput::KeyboardInput {
        key: KeyCode::Space,
        state: ElementState::Released,
    });
    let keys = &app.state.as_ref().unwrap().player_controller;
    assert!(!keys.up && keys.left);
}

#[test]
fn other_events_change_nothing() {
    let mut app = running(800, 600);
    assert_eq!(app.window_event(WindowInput::Other), Reaction::Ignore);
    let state = app.state.as_ref().unwrap();
    assert_eq!(state.phase, Phase::Ready);
    assert_eq!((state.display.config.width, state.display.config.height), (800, 600));
}
