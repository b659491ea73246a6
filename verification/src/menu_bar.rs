//! The state of the application's menu bar and what a click on it asks for.

use vstd::prelude::*;
use crate::config::AppMode;

verus! {

/// What a click on the menu bar asks for.
#[derive(Clone, Copy, Debug, PartialEq, Eq, Structural)]
pub enum MenuAction {
    /// Nothing was clicked.
    NoAction,
    NewProject,
    OpenFile,
    SaveAs,
    Exit,
    ImageToPdf,
    ImageConverter,
    About,
    Settings,
}

/// The state of the menu bar.
#[derive(Clone, Copy, Debug)]
pub struct MenuBarState {
    /// The mode that the bar shows as current.
    pub current_mode: AppMode,
    /// Whether the dialog about the application is open.
    pub show_about: bool,
    /// Whether the dialog of settings is open.
    pub show_settings: bool,
}

impl Default for MenuBarState {
    fn default() -> (state: MenuBarState)
        ensures
            state.current_mode == AppMode::ImageConverter,
            !state.show_about,
            !state.show_settings,
    {
        MenuBarState { current_mode: AppMode::ImageConverter, show_about: false, show_settings: false }
    }
}

/// The mode that an action switches to, if it switches the mode.
pub open spec fn mode_after(action: MenuAction, current: AppMode) -> AppMode {
    match action {
        MenuAction::ImageConverter => AppMode::ImageConverter,
        MenuAction::ImageToPdf => AppMode::ImageToPdf,
        _ => current,
    }
}

/// Applies an action to the state of the bar: the two actions that name a
/// mode switch to it, the two that name a dialog open it, and the others
/// leave the bar as it is.
pub fn apply_menu_action(state: &mut MenuBarState, action: MenuAction)
    ensures
        final(state).current_mode == mode_after(action, old(state).current_mode),
        final(state).show_about == (old(state).show_about || action == MenuAction::About),
        final(state).show_settings == (old(state).show_settings || action == MenuAction::Settings),
{
    match action {
        MenuAction::ImageConverter => {
            state.current_mode = AppMode::ImageConverter;
        },
        MenuAction::ImageToPdf => {
            state.current_mode = AppMode::ImageToPdf;
        },
        MenuAction::About => {
            state.show_about = true;
        },
        MenuAction::Settings => {
            state.show_settings = true;
        },
        _ => {},
    }
}

} // verus!
