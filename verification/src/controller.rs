//! Decisions of the selection front end: the model the render loop keeps,
//! how messages update it, which key cancels, when the session counts as
//! finished, and what the finished session hands to the rule writer.

use vstd::prelude::*;
use crate::geometry::WindowRecord;
use crate::hyprland_config::{SelectWindowBy, WindowOptions};
use crate::window_select::Message;

verus! {

/// A value either supplied up front or still to be prompted for.
pub enum OrPrompt<T> {
    Args(T),
    Prompt,
}

/// Whether the front end keeps looping.
#[derive(Clone, Copy, Debug, PartialEq, Eq, Structural)]
pub enum RunningState {
    Running,
    Done,
}

/// The page the front end shows; selection is the only one.
#[derive(Clone, Copy, Debug, PartialEq, Eq, Structural)]
pub enum PageState {
    WindowSelect,
}

/// The front end's model: the window hovered last, whether the loop goes
/// on, the page, and the rule parameters given on the command line.
pub struct Model {
    pub hovered_client: Option<WindowRecord>,
    pub running_state: RunningState,
    pub page: PageState,
    pub window_options: OrPrompt<WindowOptions>,
    pub select_by_list: OrPrompt<Vec<SelectWindowBy>>,
}

/// A message the front end applies to its model.
pub enum Messages {
    ClientUpdate(WindowRecord),
    RunningState(RunningState),
}

/// The completed selection handed to the rule writer.
pub struct WindowSelection {
    pub client: WindowRecord,
    pub window_options: WindowOptions,
    pub select_by_list: Vec<SelectWindowBy>,
}

impl Model {
    /// A fresh model: nothing hovered, loop running, selection page shown,
    /// each rule parameter taken from the arguments when given.
    pub fn new(window_options: Option<WindowOptions>, select_by_list: Option<Vec<SelectWindowBy>>)
        -> (m: Self)
        ensures
            m.hovered_client is None,
            m.running_state is Running,
            m.page is WindowSelect,
            match window_options {
                Some(o) => m.window_options matches OrPrompt::Args(o2) && o2 == o,
                None => m.window_options is Prompt,
            },
            match select_by_list {
                Some(l) => m.select_by_list matches OrPrompt::Args(l2) && l2@ == l@,
                None => m.select_by_list is Prompt,
            },
    {
        Model {
            hovered_client: None,
            running_state: RunningState::Running,
            page: PageState::WindowSelect,
            window_options: match window_options {
                Some(o) => OrPrompt::Args(o),
                None => OrPrompt::Prompt,
            },
            select_by_list: match select_by_list {
                Some(l) => OrPrompt::Args(l),
                None => OrPrompt::Prompt,
            },
        }
    }
}

/// Applies one message to the model: a client update replaces the hovered
/// window, a running-state update replaces the loop state, nothing else
/// moves; no message leaves the model as it was.
pub fn update(model: &mut Model, message: Option<Messages>) -> (r: Option<()>)
    ensures
        r is None,
        message is None ==> *final(model) == *old(model),
        message matches Some(Messages::ClientUpdate(c)) ==> {
            &&& final(model).hovered_client matches Some(c2) && c2 == c
            &&& final(model).running_state == old(model).running_state
            &&& final(model).page == old(model).page
            &&& final(model).window_options == old(model).window_options
            &&& final(model).select_by_list == old(model).select_by_list
        },
        message matches Some(Messages::RunningState(rs)) ==> {
            &&& final(model).running_state == rs
            &&& final(model).hovered_client == old(model).hovered_client
            &&& final(model).page == old(model).page
            &&& final(model).window_options == old(model).window_options
            &&& final(model).select_by_list == old(model).select_by_list
        },
{
    match message {
        Some(Messages::ClientUpdate(client)) => {
            model.hovered_client = Some(client);
        },
        Some(Messages::RunningState(running_state)) => {
            model.running_state = running_state;
        },
        None => {},
    }
    None
}

/// The key decision of the front end: `q` cancels the loop, every other
/// key is ignored.
pub fn handle_key(key: char) -> (r: Option<Messages>)
    ensures
        key == 'q' ==> (r matches Some(m) && m matches Messages::RunningState(rs)
            && rs is Done),
        key != 'q' ==> r is None,
{
    if key == 'q' {
        Some(Messages::RunningState(RunningState::Done))
    } else {
        None
    }
}

/// The identity the front end must look up again after a hover report: a
/// hovered address asks for a fetch, everything else asks for nothing.
pub fn wants_client_lookup(msg: &Message) -> (r: Option<String>)
    ensures
        match msg {
            Message::HoveredClient(Some(a)) => r matches Some(b) && b@ == a@,
            _ => r is None,
        },
{
    match msg {
        Message::HoveredClient(Some(a)) => Some(a.clone()),
        _ => None,
    }
}

/// The finish decision taken when the session reports `Done`: once both
/// rule parameters were given as arguments the loop stops, whether or not
/// any window was hovered — a click over nothing ends the selection with
/// no selection.  Only a parameter still to be prompted for keeps the
/// front end looping.
pub fn on_session_done(model: &mut Model)
    ensures
        final(model).hovered_client == old(model).hovered_client,
        final(model).page == old(model).page,
        final(model).window_options == old(model).window_options,
        final(model).select_by_list == old(model).select_by_list,
        (old(model).select_by_list is Args && old(model).window_options is Args)
            ==> final(model).running_state is Done,
        !(old(model).select_by_list is Args && old(model).window_options is Args)
            ==> final(model).running_state == old(model).running_state,
{
    let args_present = match (&model.select_by_list, &model.window_options) {
        (OrPrompt::Args(_), OrPrompt::Args(_)) => true,
        _ => false,
    };
    if args_present {
        update(model, Some(Messages::RunningState(RunningState::Done)));
    }
}

/// The final extraction: a selection exists exactly when both rule
/// parameters were given and a window was hovered, and it carries them.
pub fn selection(model: Model) -> (r: Option<WindowSelection>)
    ensures
        match r {
            Some(sel) => {
                &&& model.select_by_list matches OrPrompt::Args(l) && sel.select_by_list == l
                &&& model.window_options matches OrPrompt::Args(o) && sel.window_options == o
                &&& model.hovered_client matches Some(c) && sel.client == c
            },
            None => !(model.select_by_list is Args && model.window_options is Args
                && model.hovered_client is Some),
        },
{
    match (model.select_by_list, model.window_options, model.hovered_client) {
        (OrPrompt::Args(select_by_list), OrPrompt::Args(window_options), Some(client)) => Some(
            WindowSelection { client, window_options, select_by_list },
        ),
        _ => None,
    }
}

} // verus!
