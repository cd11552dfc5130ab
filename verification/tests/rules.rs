use hyprselect::cli;
use hyprselect::controller::{
    handle_key, on_session_done, selection, update, wants_client_lookup, Messages, Model,
    OrPrompt, RunningState,
};
use hyprselect::geometry::WindowRecord;
use hyprselect::hyprland_config::{
    config_file_name, selector_string, window_rule_line, SelectWindowBy, WindowOptions,
    WindowPlacement,
};
use hyprselect::window_select::Message;

fn client(title: &str, class: &str) -> WindowRecord {
    WindowRecord {
        address: String::from("0xc"),
        at: (0, 0),
        size: (10, 10),
        workspace: 1,
        mapped: true,
        monitor: Some(0),
        title: String::from(title),
        class: String::from(class),
        initial_title: String::from("init title"),
        initial_class: String::from("init class"),
    }
}

#[test]
fn selector_joins_chosen_properties() {
    let c = client("Term", "kitty");
    let list = vec![SelectWindowBy::Title, SelectWindowBy::Class];
    assert_eq!(selector_string(&c, &list), "title:(Term), class:(kitty)");
}

#[test]
fn selector_covers_initial_properties() {
    let c = client("Term", "kitty");
    let list = vec![SelectWindowBy::InitialTitle, SelectWindowBy::InitialClass];
    assert_eq!(
        selector_string(&c, &list),
        "initialTitle:(init title), initialClass:(init class)"
    );
}

#[test]
fn rule_line_starts_with_placement() {
    let c = client("Term", "kitty");
    let options =
        WindowOptions { window_placement: WindowPlacement::Float, fullscreen: false };
    let list = vec![SelectWindowBy::Title];
    assert_eq!(window_rule_line(&options, &c, &list), "float, title:(Term)");
    let options = WindowOptions { window_placement: WindowPlacement::Tile, fullscreen: true };
    assert_eq!(window_rule_line(&options, &c, &list), "tile, title:(Term)");
}

#[test]
fn file_name_strips_non_word_characters() {
    // spaces and punctuation are removed before the name is assembled
    assert_eq!(config_file_name("my title!", "a b"), "mytitle-ab.conf");
}

#[test]
fn file_name_truncates_to_eight_characters() {
    assert_eq!(
        config_file_name("abcdefghijklmno", "pqrstuvwxyz"),
        "abcdefgh-pqrstuvw.conf"
    );
}

#[test]
fn file_name_of_empty_texts() {
    assert_eq!(config_file_name("", ""), "-.conf");
}

#[test]
fn flags_pick_the_placement() {
    let o = cli::window_options_from_flags(true, false, true);
    assert_eq!(o.window_placement, WindowPlacement::Float);
    assert!(o.fullscreen);
    let o = cli::window_options_from_flags(false, true, false);
    assert_eq!(o.window_placement, WindowPlacement::Tile);
    assert!(!o.fullscreen);
}

#[test]
fn cli_selectors_convert_in_order() {
    let list = vec![
        cli::SelectWindowBy::InitialClass,
        cli::SelectWindowBy::Title,
        cli::SelectWindowBy::Class,
        cli::SelectWindowBy::InitialTitle,
    ];
    let converted = cli::select_by_from_cli(&list);
    assert_eq!(
        converted,
        vec![
            SelectWindowBy::InitialClass,
            SelectWindowBy::Title,
            SelectWindowBy::Class,
            SelectWindowBy::InitialTitle,
        ]
    );
}

#[test]
fn q_key_cancels_and_others_do_not() {
    assert!(matches!(
        handle_key('q'),
        Some(Messages::RunningState(RunningState::Done))
    ));
    assert!(handle_key('x').is_none());
    assert!(handle_key('Q').is_none());
}

#[test]
fn model_updates_apply_messages() {
    let mut model = Model::new(None, None);
    assert!(model.hovered_client.is_none());
    update(&mut model, Some(Messages::ClientUpdate(client("T", "c"))));
    assert_eq!(model.hovered_client.as_ref().map(|c| c.title.as_str()), Some("T"));
    assert_eq!(model.running_state, RunningState::Running);
    update(&mut model, Some(Messages::RunningState(RunningState::Done)));
    assert_eq!(model.running_state, RunningState::Done);
}

#[test]
fn hover_report_asks_for_a_lookup() {
    let msg = Message::HoveredClient(Some(String::from("0xd")));
    assert_eq!(wants_client_lookup(&msg), Some(String::from("0xd")));
    assert_eq!(wants_client_lookup(&Message::HoveredClient(None)), None);
    assert_eq!(wants_client_lookup(&Message::Done), None);
}

#[test]
fn session_finishes_with_arguments_whether_or_not_hovered() {
    let options = WindowOptions { window_placement: WindowPlacement::Float, fullscreen: false };
    let list = vec![SelectWindowBy::Title];

    // everything present: done, and a selection comes out
    let mut model = Model::new(Some(options), Some(list.clone()));
    update(&mut model, Some(Messages::ClientUpdate(client("T", "c"))));
    on_session_done(&mut model);
    assert_eq!(model.running_state, RunningState::Done);
    let sel = selection(model).expect("selection should exist");
    assert_eq!(sel.client.title, "T");
    assert_eq!(sel.window_options.window_placement, WindowPlacement::Float);
    assert_eq!(sel.select_by_list, list);

    // no hovered window: the session still ends, with no selection
    let mut model = Model::new(Some(options), Some(list.clone()));
    on_session_done(&mut model);
    assert_eq!(model.running_state, RunningState::Done);
    assert!(selection(model).is_none());

    // a parameter still to be prompted for: not done even with a hover
    let mut model = Model::new(None, None);
    update(&mut model, Some(Messages::ClientUpdate(client("T", "c"))));
    on_session_done(&mut model);
    assert_eq!(model.running_state, RunningState::Running);
    assert!(matches!(model.window_options, OrPrompt::Prompt));
    assert!(selection(model).is_none());
}
