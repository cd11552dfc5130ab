use hyprselect::buffer_surface::BufferSurface;
use hyprselect::geometry::{Monitor, WindowRecord};
use hyprselect::protocols::{Action, Event};
use hyprselect::window_select::{Desu, Message, WindowSelect};

fn monitor(id: i64, x: i32, y: i32, active_workspace: i32) -> Monitor {
    Monitor { id, x, y, width: 1920, height: 1080, active_workspace }
}

fn window(address: &str, at: (i16, i16), size: (i16, i16), workspace: i32) -> WindowRecord {
    WindowRecord {
        address: String::from(address),
        at,
        size,
        workspace,
        mapped: true,
        monitor: Some(1),
        title: String::from("Editor"),
        class: String::from("editor"),
        initial_title: String::from("Editor"),
        initial_class: String::from("editor"),
    }
}

fn surface_names(ws: &WindowSelect) -> Vec<(i64, u32)> {
    match &ws.stuff {
        Desu::Running(run) => run
            .state
            .buffer_surfaces
            .iter()
            .map(|s| match s {
                BufferSurface::Pre(p) => (p.monitor_id, 0),
                BufferSurface::InProcess(p) => (p.monitor_id, 1),
                BufferSurface::HasOutput(p) => (p.monitor_id, 2),
                BufferSurface::ReadyToDraw(p) => (p.monitor_id, 3),
            })
            .collect(),
        Desu::Done => Vec::new(),
    }
}

#[test]
fn surfaces_wait_for_compositor_before_buffer_factory() {
    let monitors = vec![monitor(0, 0, 0, 1), monitor(1, 1920, 0, 2)];
    let mut ws = WindowSelect::new(Vec::new(), monitors);
    // the factory alone does not advance anything
    ws.update(&vec![Event::ShmArrived]);
    assert_eq!(surface_names(&ws), vec![(0, 0), (1, 0)]);
}

#[test]
fn buffer_factory_advances_every_pre_surface() {
    let monitors = vec![monitor(0, 0, 0, 1), monitor(1, 1920, 0, 2)];
    let mut ws = WindowSelect::new(Vec::new(), monitors);
    ws.update(&vec![Event::CompositorArrived, Event::ShmArrived]);
    assert_eq!(surface_names(&ws), vec![(0, 1), (1, 1)]);
}

#[test]
fn output_binding_waits_for_layer_shell() {
    let monitors = vec![monitor(0, 0, 0, 1)];
    let mut ws = WindowSelect::new(Vec::new(), monitors);
    ws.update(&vec![Event::CompositorArrived, Event::ShmArrived, Event::OutputArrived]);
    assert_eq!(surface_names(&ws), vec![(0, 1)]);
    ws.update(&vec![Event::LayerShellArrived, Event::OutputArrived]);
    assert_eq!(surface_names(&ws), vec![(0, 2)]);
}

#[test]
fn configure_makes_surface_live_and_draws_it() {
    let monitors = vec![monitor(0, 0, 0, 1)];
    let mut ws = WindowSelect::new(Vec::new(), monitors);
    let (_, acts) = ws.update(&vec![
        Event::CompositorArrived,
        Event::ShmArrived,
        Event::LayerShellArrived,
        Event::OutputArrived,
        Event::Configure { monitor_id: 0, serial: 41 },
    ]);
    assert_eq!(surface_names(&ws), vec![(0, 3)]);
    assert!(acts.iter().any(|a| matches!(a, Action::AckConfigure { serial: 41, .. })));
    let drawn = acts.iter().any(|a| match a {
        Action::CreateBuffer { width, height, pixels, .. } => {
            *width == 1920 && *height == 1080 && pixels.len() == 1920 * 1080 * 4
        },
        _ => false,
    });
    assert!(drawn, "the real buffer should be drawn at monitor size");
}

#[test]
fn redraw_of_live_surface_is_pixel_identical() {
    let monitors = vec![monitor(1, 0, 0, 2)];
    let clients = vec![window("0xw", (10, 10), (100, 100), 2)];
    let mut ws = WindowSelect::new(clients, monitors);
    let (_, first) = ws.update(&vec![
        Event::CompositorArrived,
        Event::ShmArrived,
        Event::LayerShellArrived,
        Event::OutputArrived,
        Event::Configure { monitor_id: 1, serial: 1 },
    ]);
    let (_, second) = ws.update(&vec![Event::Configure { monitor_id: 1, serial: 2 }]);
    let (_, third) = ws.update(&vec![Event::Configure { monitor_id: 1, serial: 3 }]);
    let pixels_of = |acts: &Vec<Action>| -> Vec<u8> {
        acts.iter()
            .find_map(|a| match a {
                Action::CreateBuffer { width: 1920, pixels, .. } => Some(pixels.clone()),
                _ => None,
            })
            .expect("a full-size buffer should be drawn")
    };
    let p1 = pixels_of(&first);
    let p2 = pixels_of(&second);
    let p3 = pixels_of(&third);
    assert_eq!(p1, p2);
    assert_eq!(p2, p3);
}

#[test]
fn pointer_button_ends_the_session() {
    let monitors = vec![monitor(0, 0, 0, 1)];
    let mut ws = WindowSelect::new(Vec::new(), monitors);
    let (msg, _) = ws.update(&vec![Event::PointerButton]);
    // the round that carries the click still reports a hover result
    assert_eq!(msg, Message::HoveredClient(None));
    let (msg, _) = ws.update(&Vec::new());
    assert_eq!(msg, Message::Done);
}

#[test]
fn escape_key_ends_the_session_and_other_keys_do_not() {
    let monitors = vec![monitor(0, 0, 0, 1)];
    let mut ws = WindowSelect::new(Vec::new(), monitors);
    ws.update(&vec![Event::Key { key: 30 }]);
    let (msg, _) = ws.update(&Vec::new());
    assert_eq!(msg, Message::HoveredClient(None));
    ws.update(&vec![Event::Key { key: 1 }]);
    let (msg, _) = ws.update(&Vec::new());
    assert_eq!(msg, Message::Done);
}

#[test]
fn cursor_shape_is_requested_only_when_manager_is_known() {
    let monitors = vec![monitor(0, 0, 0, 1)];
    let mut ws = WindowSelect::new(Vec::new(), monitors);
    let (_, acts) = ws.update(&vec![Event::PointerEnter { monitor_id: 0, serial: 5 }]);
    assert!(!acts.iter().any(|a| matches!(a, Action::SetCursorShape { .. })));
    let (_, acts) = ws.update(&vec![
        Event::CursorShapeManagerArrived,
        Event::PointerEnter { monitor_id: 0, serial: 6 },
    ]);
    assert!(acts.contains(&Action::SetCursorShape { serial: 6 }));
}

#[test]
fn seat_capabilities_request_reported_devices() {
    let monitors = vec![monitor(0, 0, 0, 1)];
    let mut ws = WindowSelect::new(Vec::new(), monitors);
    let (_, acts) = ws.update(&vec![Event::SeatCapabilities { keyboard: true, pointer: true }]);
    assert_eq!(acts, vec![Action::GetKeyboard, Action::GetPointer]);
    let (_, acts) = ws.update(&vec![Event::SeatCapabilities { keyboard: false, pointer: true }]);
    assert_eq!(acts, vec![Action::GetPointer]);
    let (_, acts) = ws.update(&vec![Event::SeatCapabilities { keyboard: false, pointer: false }]);
    assert!(acts.is_empty());
}

#[test]
fn clean_up_releases_objects_outer_to_inner() {
    let monitors = vec![monitor(0, 0, 0, 1)];
    let mut ws = WindowSelect::new(Vec::new(), monitors);
    ws.update(&vec![
        Event::CompositorArrived,
        Event::ShmArrived,
        Event::LayerShellArrived,
        Event::OutputArrived,
        Event::Configure { monitor_id: 0, serial: 1 },
    ]);
    let acts = ws.clean_up();
    assert!(matches!(ws.stuff, Desu::Done));
    let kinds: Vec<u8> = acts
        .iter()
        .map(|a| match a {
            Action::DestroyLayerSurface { .. } => 1,
            Action::DestroySurface { .. } => 2,
            Action::DestroyBuffer { .. } => 3,
            Action::ReleaseOutput { .. } => 4,
            Action::ReleaseShm { .. } => 5,
            Action::DestroyLayerShell { .. } => 6,
            _ => 0,
        })
        .collect();
    assert_eq!(kinds, vec![1, 2, 3, 4, 5, 6]);
    // tearing down again asks for nothing
    let acts = ws.clean_up();
    assert!(acts.is_empty());
}

#[test]
fn clean_up_of_partial_surface_releases_only_what_exists() {
    let monitors = vec![monitor(0, 0, 0, 1)];
    let mut ws = WindowSelect::new(Vec::new(), monitors);
    ws.update(&vec![Event::CompositorArrived, Event::ShmArrived]);
    let acts = ws.clean_up();
    let kinds: Vec<u8> = acts
        .iter()
        .map(|a| match a {
            Action::DestroySurface { .. } => 2,
            Action::DestroyBuffer { .. } => 3,
            Action::ReleaseShm { .. } => 5,
            _ => 0,
        })
        .collect();
    assert_eq!(kinds, vec![2, 3, 5]);
}
