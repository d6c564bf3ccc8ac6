//! Navigation nodes: what they have in common, and the menu they share.

pub mod log;
pub mod select;
pub mod start;
pub mod times;

use crate::model::Event;
use vstd::prelude::*;

verus! {

/// A navigation node, driven once per frame.
pub trait Pane {
    /// What the user interface reports of one frame.
    type Input;

    /// One frame of the node, which may ask for a transition.
    fn update(&mut self, input: Self::Input) -> Option<Event>;

    /// Asks the node to fetch its data again.
    fn reload(&mut self);
}

/// Which entries of the node menu were pressed in one frame.
#[derive(Copy, Clone, Debug, PartialEq, Eq, Structural)]
pub struct MenuInput {
    pub logs: bool,
    pub config: bool,
    pub back: bool,
}

/// The transition that the node menu asks for. Of several entries pressed
/// in one frame the last in the menu's order wins: back, then
/// configuration, then logs. The menu closes whenever there is one.
pub open spec fn menu_event(input: MenuInput) -> Option<Event> {
    if input.back {
        Some(Event::Pop)
    } else if input.config {
        Some(Event::Config)
    } else if input.logs {
        Some(Event::Logs)
    } else {
        None
    }
}

/// Decides the transition for one frame of the node menu.
pub fn pane_menu(input: MenuInput) -> (event: Option<Event>)
    ensures
        event == menu_event(input),
{
    let mut e = None;
    if input.logs {
        e = Some(Event::Logs);
    }
    if input.config {
        e = Some(Event::Config);
    }
    if input.back {
        e = Some(Event::Pop);
    }
    e
}

} // verus!
