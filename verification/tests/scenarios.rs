use hyprselect::geometry::{Monitor, WindowRecord};
use hyprselect::protocols::{Action, Event};
use hyprselect::window_select::{Message, WindowSelect};

fn monitor(id: i64, x: i32, y: i32, active_workspace: i32) -> Monitor {
    Monitor { id, x, y, width: 1920, height: 1080, active_workspace }
}

fn window(
    address: &str,
    at: (i16, i16),
    size: (i16, i16),
    workspace: i32,
    mapped: bool,
    monitor: Option<i64>,
) -> WindowRecord {
    WindowRecord {
        address: String::from(address),
        at,
        size,
        workspace,
        mapped,
        monitor,
        title: String::from("Editor"),
        class: String::from("editor"),
        initial_title: String::from("Editor"),
        initial_class: String::from("editor"),
    }
}

/// Two side-by-side monitors, one window on the second: hovering inside the
/// window's monitor-local rectangle reports it, the rectangle's boundary
/// does not.
#[test]
fn two_monitors_hover_and_boundaries() {
    let monitors = vec![monitor(0, 0, 0, 1), monitor(1, 1920, 0, 2)];
    let clients = vec![window("0xwin", (1920, 100), (400, 300), 2, true, Some(1))];
    let mut ws = WindowSelect::new(clients, monitors);

    let (msg, _) = ws.update(&vec![
        Event::PointerEnter { monitor_id: 1, serial: 1 },
        Event::PointerMotion { x: 201, y: 150 },
    ]);
    assert_eq!(msg, Message::HoveredClient(Some(String::from("0xwin"))));

    let (msg, _) = ws.update(&vec![Event::PointerMotion { x: 399, y: 150 }]);
    assert_eq!(msg, Message::HoveredClient(Some(String::from("0xwin"))));

    // the region is monitor-local (0, 100) sized (400, 300): x == 400 and
    // y == 400 both sit on the exclusive boundary
    let (msg, _) = ws.update(&vec![Event::PointerMotion { x: 400, y: 450 }]);
    assert_eq!(msg, Message::HoveredClient(None));

    // the same coordinates on the wrong monitor's surface never match
    let (msg, _) = ws.update(&vec![
        Event::PointerEnter { monitor_id: 0, serial: 2 },
        Event::PointerMotion { x: 201, y: 150 },
    ]);
    assert_eq!(msg, Message::HoveredClient(None));
}

/// No window is eligible anywhere: motion always reports no hover, and a
/// click ends the session with no selection.
#[test]
fn no_eligible_windows_click_ends_with_no_selection() {
    let monitors = vec![monitor(0, 0, 0, 1), monitor(1, 1920, 0, 2)];
    // one unmapped window, one on a workspace no monitor shows
    let clients = vec![
        window("0xa", (10, 10), (100, 100), 1, false, Some(0)),
        window("0xb", (10, 10), (100, 100), 9, true, Some(0)),
    ];
    let mut ws = WindowSelect::new(clients, monitors);

    let (msg, _) = ws.update(&vec![
        Event::PointerEnter { monitor_id: 0, serial: 1 },
        Event::PointerMotion { x: 50, y: 50 },
    ]);
    assert_eq!(msg, Message::HoveredClient(None));
    let (msg, _) = ws.update(&vec![Event::PointerMotion { x: 11, y: 11 }]);
    assert_eq!(msg, Message::HoveredClient(None));

    let (msg, _) = ws.update(&vec![Event::PointerButton]);
    assert_eq!(msg, Message::HoveredClient(None));
    let (msg, _) = ws.update(&Vec::new());
    assert_eq!(msg, Message::Done);

    // the click terminates the front end too, with "no selection"
    let options = hyprselect::hyprland_config::WindowOptions {
        window_placement: hyprselect::hyprland_config::WindowPlacement::Float,
        fullscreen: false,
    };
    let select_by = vec![hyprselect::hyprland_config::SelectWindowBy::Title];
    let mut model = hyprselect::controller::Model::new(Some(options), Some(select_by));
    hyprselect::controller::on_session_done(&mut model);
    assert_eq!(
        model.running_state,
        hyprselect::controller::RunningState::Done
    );
    assert!(hyprselect::controller::selection(model).is_none());
}

fn anchored_monitors(events: &Vec<Event>) -> Vec<i64> {
    let monitors = vec![monitor(5, 0, 0, 1), monitor(6, 1920, 0, 2)];
    let mut ws = WindowSelect::new(Vec::new(), monitors);
    let (_, acts) = ws.update(events);
    acts.iter()
        .filter_map(|a| match a {
            Action::AnchorOverlay { monitor_id, .. } => Some(*monitor_id),
            _ => None,
        })
        .collect()
}

/// Outputs arriving in reverse order of the monitor list still bind
/// strictly positionally: the first arrival binds the first unbound
/// monitor in list order, deterministically across runs.
#[test]
fn output_binding_is_positional_and_deterministic() {
    let events = vec![
        Event::CompositorArrived,
        Event::ShmArrived,
        Event::LayerShellArrived,
        // the output that physically belongs to the second monitor arrives
        // first; the session cannot tell and must not try to guess
        Event::OutputArrived,
        Event::OutputArrived,
    ];
    let first_run = anchored_monitors(&events);
    let second_run = anchored_monitors(&events);
    assert_eq!(first_run, vec![5, 6]);
    assert_eq!(second_run, vec![5, 6]);
}
