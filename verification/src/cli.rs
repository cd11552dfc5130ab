//! The command-line surface as plain data, and the decisions that turn
//! parsed flags into rule parameters.  Argument parsing itself lives in
//! the unverified front end, which converts into these types.

use vstd::prelude::*;
use crate::hyprland_config;
use crate::hyprland_config::{WindowOptions, WindowPlacement};

verus! {

/// Which window property a rule selects by, as named on the command line.
#[derive(Clone, Copy, PartialEq, Eq, Structural, Debug)]
pub enum SelectWindowBy {
    Title,
    Class,
    InitialClass,
    InitialTitle,
}

/// The subcommands of the tool.
#[derive(Debug)]
pub enum Commands {
    Generate { float: bool, tile: bool, fullscreen: bool, select_by: Vec<SelectWindowBy> },
}

/// The parsed command line.
#[derive(Debug)]
pub struct Cli {
    pub name: Option<String>,
    pub version: bool,
    pub debug: u8,
    pub command: Option<Commands>,
}

/// The rule-parameter meaning of one command-line selector name.
pub open spec fn select_by_spec(sb: SelectWindowBy) -> hyprland_config::SelectWindowBy {
    match sb {
        SelectWindowBy::Title => hyprland_config::SelectWindowBy::Title,
        SelectWindowBy::Class => hyprland_config::SelectWindowBy::Class,
        SelectWindowBy::InitialClass => hyprland_config::SelectWindowBy::InitialClass,
        SelectWindowBy::InitialTitle => hyprland_config::SelectWindowBy::InitialTitle,
    }
}

/// Converts the command-line selector list into rule parameters, keeping
/// the order.
pub fn select_by_from_cli(list: &Vec<SelectWindowBy>) -> (r: Vec<hyprland_config::SelectWindowBy>)
    ensures
        r@.len() == list@.len(),
        forall|i: int| 0 <= i < list@.len() ==> r@[i] == select_by_spec(#[trigger] list@[i]),
{
    let mut out: Vec<hyprland_config::SelectWindowBy> = Vec::new();
    let mut i: usize = 0;
    while i < list.len()
        invariant
            0 <= i <= list@.len(),
            out@.len() == i,
            forall|k: int| 0 <= k < i ==> out@[k] == select_by_spec(#[trigger] list@[k]),
        decreases list@.len() - i,
    {
        let mapped = match list[i] {
            SelectWindowBy::Title => hyprland_config::SelectWindowBy::Title,
            SelectWindowBy::Class => hyprland_config::SelectWindowBy::Class,
            SelectWindowBy::InitialClass => hyprland_config::SelectWindowBy::InitialClass,
            SelectWindowBy::InitialTitle => hyprland_config::SelectWindowBy::InitialTitle,
        };
        out.push(mapped);
        i += 1;
    }
    out
}

/// Builds the rule parameters from the placement flags.  Exactly one of
/// `float` and `tile` must be set; the command layer refuses every other
/// combination before calling in.
pub fn window_options_from_flags(float: bool, tile: bool, fullscreen: bool) -> (o: WindowOptions)
    requires
        float != tile,
    ensures
        o.fullscreen == fullscreen,
        o.window_placement == (if float {
            WindowPlacement::Float
        } else {
            WindowPlacement::Tile
        }),
{
    WindowOptions {
        fullscreen,
        window_placement: if float {
            WindowPlacement::Float
        } else {
            WindowPlacement::Tile
        },
    }
}

} // verus!
