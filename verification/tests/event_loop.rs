use lyra_engine::bootstrap::SetupError;
use lyra_engine::event_loop::{
    Action, ElementState, KeyCode, KeyEvent, SetupGames, StateApp, Termination, WindowEvent,
    DIAGNOSTIC, STATUS_CLOSED, STATUS_FAILED,
};
use lyra_engine::renderer::SurfaceFailure;
use lyra_engine::surface::{PhysicalSize, SurfaceCapabilities};
use wgpu::{CompositeAlphaMode, TextureFormat};
use winit::window::WindowId;

fn window() -> WindowId {
    WindowId::from(1u64)
}

fn capabilities() -> SurfaceCapabilities {
    SurfaceCapabilities {
        formats: vec![TextureFormat::Bgra8UnormSrgb],
        alpha_modes: vec![CompositeAlphaMode::Opaque],
    }
}

fn running(width: u32, height: u32) -> StateApp {
    let mut app = StateApp::new(String::from("Lyra"));
    assert_eq!(app.resumed(), Action::CreateWindow);
    let action = app.window_created(window(), PhysicalSize::new(width, height), capabilities());
    assert_eq!(action, Action::Configure(PhysicalSize::new(width, height)));
    app
}

fn key(physical_key: KeyCode, state: ElementState, repeat: bool) -> WindowEvent {
    WindowEvent::KeyboardInput(KeyEvent { physical_key, state, repeat })
}

fn extent(app: &StateApp) -> (u32, u32) {
    let config = app.state().unwrap().config();
    (config.width, config.height)
}

#[test]
fn new_application_is_uninitialized() {
    let app = StateApp::new(String::from("Permainan"));
    assert!(!app.running());
    assert!(app.state().is_none());
    assert_eq!(app.name(), "Permainan");
    assert_eq!(app.resumed(), Action::CreateWindow);
}

#[test]
fn setup_makes_the_named_application() {
    let app = SetupGames { name: String::from("Lyra Engine") }.play();
    assert_eq!(app.name(), "Lyra Engine");
    assert!(!app.running());
}

#[test]
fn window_is_created_once() {
    let mut app = StateApp::new(String::from("Lyra"));
    assert_eq!(app.resumed(), Action::CreateWindow);
    app.window_created(window(), PhysicalSize::new(800, 600), capabilities());
    assert!(app.running());
    assert_eq!(app.resumed(), Action::Nothing);
    assert_eq!(app.resumed(), Action::Nothing);
    assert_eq!(app.state().unwrap().window(), window());
    assert_eq!(extent(&app), (800, 600));
}

#[test]
fn resize_then_close_configures_twice_and_terminates() {
    let mut effects: Vec<Action> = Vec::new();
    let mut renders_since_configure: Vec<u32> = Vec::new();
    let mut renders: u32 = 0;
    let mut app = SetupGames { name: String::from("Lyra") }.play();
    let mut note = |action: Action, effects: &mut Vec<Action>| match action {
        Action::Configure(_) => {
            if !effects.is_empty() {
                renders_since_configure.push(renders);
            }
            renders = 0;
            effects.push(action);
        }
        Action::Exit => {
            renders_since_configure.push(renders);
            effects.push(action);
        }
        Action::Render => renders += 1,
        _ => {}
    };
    assert_eq!(app.resumed(), Action::CreateWindow);
    let action = app.window_created(window(), PhysicalSize::new(800, 600), capabilities());
    note(action, &mut effects);
    assert_eq!(extent(&app), (800, 600));
    note(app.about_to_wait(), &mut effects);
    note(app.window_event(window(), WindowEvent::RedrawRequested), &mut effects);
    let resized = WindowEvent::Resized(PhysicalSize::new(1024, 768));
    note(app.window_event(window(), resized), &mut effects);
    assert_eq!(extent(&app), (1024, 768));
    note(app.about_to_wait(), &mut effects);
    note(app.window_event(window(), WindowEvent::RedrawRequested), &mut effects);
    note(app.window_event(window(), WindowEvent::CloseRequested), &mut effects);
    assert_eq!(
        effects,
        vec![
            Action::Configure(PhysicalSize::new(800, 600)),
            Action::Configure(PhysicalSize::new(1024, 768)),
            Action::Exit,
        ]
    );
    assert_eq!(renders_since_configure.len(), 2);
    assert!(renders_since_configure.iter().all(|count| *count >= 1));
    assert_eq!(app.about_to_wait(), Action::Nothing);
    assert_eq!(app.window_event(window(), WindowEvent::RedrawRequested), Action::Nothing);
    assert_eq!(app.exit_status(), 0);
}

#[test]
fn second_window_is_not_taken() {
    let mut app = running(800, 600);
    let late = app.window_created(
        WindowId::from(9u64),
        PhysicalSize::new(320, 240),
        capabilities(),
    );
    assert_eq!(late, Action::Nothing);
    assert_eq!(app.state().unwrap().window(), window());
    assert_eq!(extent(&app), (800, 600));
}

#[test]
fn close_request_terminates() {
    let mut app = running(800, 600);
    assert_eq!(app.window_event(window(), WindowEvent::CloseRequested), Action::Exit);
    assert_eq!(extent(&app), (800, 600));
}

#[test]
fn redraw_request_renders() {
    let mut app = running(800, 600);
    assert_eq!(app.window_event(window(), WindowEvent::RedrawRequested), Action::Render);
}

#[test]
fn redraw_is_requested_after_every_batch() {
    let mut app = running(800, 600);
    assert_eq!(app.about_to_wait(), Action::RequestRedraw);
    app.window_event(window(), WindowEvent::Resized(PhysicalSize::new(10, 10)));
    assert_eq!(app.about_to_wait(), Action::RequestRedraw);
    assert_eq!(app.about_to_wait(), Action::RequestRedraw);
}

#[test]
fn escape_terminates_at_once() {
    let before = [
        WindowEvent::RedrawRequested,
        WindowEvent::Resized(PhysicalSize::new(300, 200)),
        key(KeyCode::Space, ElementState::Pressed, false),
        key(KeyCode::Escape, ElementState::Released, false),
        WindowEvent::Other,
    ];
    for count in 0..=before.len() {
        let mut app = running(800, 600);
        for event in &before[..count] {
            assert_ne!(app.window_event(window(), *event), Action::Exit);
        }
        let escape = key(KeyCode::Escape, ElementState::Pressed, false);
        assert_eq!(app.window_event(window(), escape), Action::Exit);
    }
}

#[test]
fn held_escape_terminates_too() {
    let mut app = running(800, 600);
    let escape = key(KeyCode::Escape, ElementState::Pressed, true);
    assert_eq!(app.window_event(window(), escape), Action::Exit);
}

#[test]
fn released_escape_is_ignored() {
    let mut app = running(800, 600);
    let escape = key(KeyCode::Escape, ElementState::Released, false);
    assert_eq!(app.window_event(window(), escape), Action::Nothing);
}

#[test]
fn space_emits_one_diagnostic_per_press() {
    let mut app = running(800, 600);
    let events = [
        key(KeyCode::Space, ElementState::Pressed, false),
        key(KeyCode::Space, ElementState::Released, false),
        WindowEvent::RedrawRequested,
        key(KeyCode::Space, ElementState::Pressed, false),
        key(KeyCode::Other, ElementState::Pressed, false),
        key(KeyCode::Space, ElementState::Released, false),
    ];
    let mut diagnostics: usize = 0;
    for event in events {
        if app.window_event(window(), event) == Action::Diagnostic {
            diagnostics += 1;
        }
    }
    assert_eq!(diagnostics, 2);
    assert_eq!(extent(&app), (800, 600));
    assert_eq!(DIAGNOSTIC, "Uji Coba Repeat");
}

#[test]
fn held_space_emits_a_diagnostic_for_every_repeat() {
    let mut app = running(800, 600);
    let first = key(KeyCode::Space, ElementState::Pressed, false);
    let repeat = key(KeyCode::Space, ElementState::Pressed, true);
    assert_eq!(app.window_event(window(), first), Action::Diagnostic);
    assert_eq!(app.window_event(window(), repeat), Action::Diagnostic);
    assert_eq!(app.window_event(window(), repeat), Action::Diagnostic);
    let released = key(KeyCode::Space, ElementState::Released, false);
    assert_eq!(app.window_event(window(), released), Action::Nothing);
}

#[test]
fn other_keys_and_events_are_ignored() {
    let mut app = running(800, 600);
    assert_eq!(app.window_event(window(), WindowEvent::Other), Action::Nothing);
    let other = key(KeyCode::Other, ElementState::Pressed, false);
    assert_eq!(app.window_event(window(), other), Action::Nothing);
    let other = key(KeyCode::Other, ElementState::Released, true);
    assert_eq!(app.window_event(window(), other), Action::Nothing);
    assert_eq!(extent(&app), (800, 600));
}

#[test]
fn events_of_another_window_are_ignored() {
    let mut app = running(800, 600);
    let stranger = WindowId::from(2u64);
    assert_eq!(app.window_event(stranger, WindowEvent::CloseRequested), Action::Nothing);
    assert_eq!(app.window_event(stranger, WindowEvent::RedrawRequested), Action::Nothing);
    let resized = WindowEvent::Resized(PhysicalSize::new(1, 2));
    assert_eq!(app.window_event(stranger, resized), Action::Nothing);
    assert_eq!(extent(&app), (800, 600));
    let escape = key(KeyCode::Escape, ElementState::Pressed, false);
    assert_eq!(app.window_event(stranger, escape), Action::Nothing);
    let space = key(KeyCode::Space, ElementState::Pressed, false);
    assert_eq!(app.window_event(stranger, space), Action::Nothing);
}

#[test]
fn resizes_leave_the_extent_of_the_last() {
    let mut app = running(800, 600);
    let sizes = [(1024u32, 768u32), (1, 1), (333, 4000), (1280, 720)];
    for (width, height) in sizes {
        let size = PhysicalSize::new(width, height);
        assert_eq!(app.window_event(window(), WindowEvent::Resized(size)), Action::Configure(size));
    }
    assert_eq!(extent(&app), (1280, 720));
    assert_eq!(app.state().unwrap().size(), PhysicalSize::new(1280, 720));
}

#[test]
fn resize_without_area_is_not_configured() {
    let mut app = running(800, 600);
    let minimized = WindowEvent::Resized(PhysicalSize::new(0, 0));
    assert_eq!(app.window_event(window(), minimized), Action::Nothing);
    assert_eq!(extent(&app), (800, 600));
    assert_eq!(app.state().unwrap().size(), PhysicalSize::new(0, 0));
    let restored = WindowEvent::Resized(PhysicalSize::new(640, 480));
    assert_eq!(
        app.window_event(window(), restored),
        Action::Configure(PhysicalSize::new(640, 480))
    );
    assert_eq!(extent(&app), (640, 480));
}

#[test]
fn only_a_graceful_end_gives_status_zero() {
    assert_eq!(Termination::Closed.exit_status(), 0);
    assert_eq!(Termination::SetupFailed(SetupError::NoAdapter).exit_status(), 1);
    assert_eq!(Termination::SetupFailed(SetupError::DeviceRefused).exit_status(), 1);
    assert_eq!(Termination::FrameFailed(SurfaceFailure::OutOfMemory).exit_status(), 1);
    assert_eq!(Termination::FrameFailed(SurfaceFailure::DeviceLost).exit_status(), 1);
    assert_eq!(STATUS_CLOSED, 0);
    assert_ne!(STATUS_FAILED, 0);
}

fn every_event() -> Vec<WindowEvent> {
    vec![
        WindowEvent::RedrawRequested,
        WindowEvent::Resized(PhysicalSize::new(1024, 768)),
        WindowEvent::Resized(PhysicalSize::new(0, 0)),
        WindowEvent::CloseRequested,
        key(KeyCode::Escape, ElementState::Pressed, false),
        key(KeyCode::Escape, ElementState::Pressed, true),
        key(KeyCode::Space, ElementState::Pressed, false),
        key(KeyCode::Space, ElementState::Pressed, true),
        key(KeyCode::Space, ElementState::Released, false),
        key(KeyCode::Other, ElementState::Pressed, false),
        WindowEvent::Other,
    ]
}

fn nothing_more_is_asked(app: &mut StateApp) {
    let state_before = (extent(app), app.state().unwrap().size());
    let termination = app.termination();
    assert!(app.exiting());
    for event in every_event() {
        assert_eq!(app.about_to_wait(), Action::Nothing);
        assert_eq!(app.window_event(window(), event), Action::Nothing);
        assert_eq!(app.window_event(WindowId::from(2u64), event), Action::Nothing);
        assert_eq!(app.resumed(), Action::Nothing);
    }
    assert_eq!(app.about_to_wait(), Action::Nothing);
    assert_eq!((extent(app), app.state().unwrap().size()), state_before);
    assert_eq!(app.termination(), termination);
    assert!(app.running());
    assert!(app.exiting());
}

#[test]
fn no_redraw_is_asked_for_after_escape() {
    let mut app = running(800, 600);
    assert!(!app.exiting());
    assert_eq!(app.about_to_wait(), Action::RequestRedraw);
    let escape = key(KeyCode::Escape, ElementState::Pressed, false);
    assert_eq!(app.window_event(window(), escape), Action::Exit);
    assert_eq!(app.about_to_wait(), Action::Nothing);
    assert_eq!(app.window_event(window(), WindowEvent::RedrawRequested), Action::Nothing);
    assert_eq!(app.termination(), Some(Termination::Closed));
    nothing_more_is_asked(&mut app);
    assert_eq!(app.exit_status(), 0);
}

#[test]
fn nothing_follows_an_exit_wherever_it_comes() {
    let before = [
        WindowEvent::RedrawRequested,
        WindowEvent::Resized(PhysicalSize::new(300, 200)),
        key(KeyCode::Space, ElementState::Pressed, false),
        key(KeyCode::Escape, ElementState::Released, false),
        WindowEvent::Other,
    ];
    let exits = [
        WindowEvent::CloseRequested,
        key(KeyCode::Escape, ElementState::Pressed, false),
        key(KeyCode::Escape, ElementState::Pressed, true),
    ];
    for exit in exits {
        for count in 0..=before.len() {
            let mut app = running(800, 600);
            for event in &before[..count] {
                assert_ne!(app.window_event(window(), *event), Action::Exit);
                assert_eq!(app.about_to_wait(), Action::RequestRedraw);
                assert!(!app.exiting());
            }
            assert_eq!(app.window_event(window(), exit), Action::Exit);
            nothing_more_is_asked(&mut app);
            assert_eq!(app.termination(), Some(Termination::Closed));
        }
    }
}

#[test]
fn exit_of_another_window_does_not_end_the_loop() {
    let mut app = running(800, 600);
    let stranger = WindowId::from(2u64);
    assert_eq!(app.window_event(stranger, WindowEvent::CloseRequested), Action::Nothing);
    assert!(!app.exiting());
    assert_eq!(app.termination(), None);
    assert_eq!(app.about_to_wait(), Action::RequestRedraw);
    assert_eq!(app.window_event(window(), WindowEvent::RedrawRequested), Action::Render);
}

#[test]
fn second_exit_is_not_asked_for() {
    let mut app = running(800, 600);
    assert_eq!(app.window_event(window(), WindowEvent::CloseRequested), Action::Exit);
    assert_eq!(app.window_event(window(), WindowEvent::CloseRequested), Action::Nothing);
    let escape = key(KeyCode::Escape, ElementState::Pressed, false);
    assert_eq!(app.window_event(window(), escape), Action::Nothing);
    assert_eq!(app.frame_failed(SurfaceFailure::OutOfMemory), Action::Nothing);
    assert_eq!(app.setup_failed(SetupError::NoAdapter), Action::Nothing);
    assert_eq!(app.termination(), Some(Termination::Closed));
    assert_eq!(app.exit_status(), 0);
}

#[test]
fn failed_setup_ends_the_loop_before_it_runs() {
    let mut app = StateApp::new(String::from("Lyra"));
    assert_eq!(app.resumed(), Action::CreateWindow);
    assert_eq!(app.exit_status(), 0);
    assert_eq!(app.setup_failed(SetupError::DeviceRefused), Action::Exit);
    assert!(app.exiting());
    assert!(!app.running());
    assert_eq!(app.termination(), Some(Termination::SetupFailed(SetupError::DeviceRefused)));
    assert_eq!(app.exit_status(), 1);
    assert_eq!(app.resumed(), Action::Nothing);
    assert_eq!(app.about_to_wait(), Action::Nothing);
    assert_eq!(app.window_event(window(), WindowEvent::RedrawRequested), Action::Nothing);
    assert_eq!(app.window_event(window(), WindowEvent::CloseRequested), Action::Nothing);
    assert_eq!(app.setup_failed(SetupError::NoAdapter), Action::Nothing);
    assert_eq!(app.termination(), Some(Termination::SetupFailed(SetupError::DeviceRefused)));
    let late = app.window_created(window(), PhysicalSize::new(800, 600), capabilities());
    assert_eq!(late, Action::Nothing);
    assert!(!app.running());
    assert_eq!(app.exit_status(), 1);
}

#[test]
fn failed_frame_ends_the_loop() {
    let mut app = running(800, 600);
    assert_eq!(app.window_event(window(), WindowEvent::RedrawRequested), Action::Render);
    assert_eq!(app.frame_failed(SurfaceFailure::OutOfMemory), Action::Exit);
    assert_eq!(app.termination(), Some(Termination::FrameFailed(SurfaceFailure::OutOfMemory)));
    assert_eq!(app.exit_status(), 1);
    nothing_more_is_asked(&mut app);
    assert_eq!(app.frame_failed(SurfaceFailure::DeviceLost), Action::Nothing);
    assert_eq!(app.termination(), Some(Termination::FrameFailed(SurfaceFailure::OutOfMemory)));
    assert_eq!(app.exit_status(), 1);
}

#[test]
fn running_application_would_end_with_status_zero() {
    let app = running(800, 600);
    assert!(!app.exiting());
    assert_eq!(app.termination(), None);
    assert_eq!(app.exit_status(), 0);
}
