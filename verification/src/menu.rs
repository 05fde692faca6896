//! The start menu and the exit menu.

use vstd::prelude::*;

verus! {

/// What a menu button does when pressed.
#[derive(Clone, Copy, PartialEq, Eq, Structural, Debug)]
pub enum ButtonAction {
    StartGame,
    ShowSettings,
    Exit,
}

/// How the pointer interacts with a button.
#[derive(Clone, Copy, PartialEq, Eq, Structural, Debug)]
pub enum Pointer {
    Pressed,
    Hovered,
    Away,
}

/// Colour scheme of a button.
#[derive(Clone, Copy, PartialEq, Eq, Structural, Debug)]
pub enum ButtonLook {
    Pressed,
    Hovered,
    Normal,
}

/// What follows an interaction with a button.
#[derive(Clone, Copy, PartialEq, Eq, Structural, Debug)]
pub struct ButtonResponse {
    pub look: ButtonLook,
    /// Hide the cursor, start the awakening and remove the menu.
    pub start_game: bool,
    /// Quit the game.
    pub exit: bool,
}

pub open spec fn button_response_spec(pointer: Pointer, action: ButtonAction) -> ButtonResponse {
    match pointer {
        Pointer::Pressed => ButtonResponse {
            look: ButtonLook::Pressed,
            start_game: action == ButtonAction::StartGame,
            exit: action == ButtonAction::Exit,
        },
        Pointer::Hovered => ButtonResponse { look: ButtonLook::Hovered, start_game: false, exit: false },
        Pointer::Away => ButtonResponse { look: ButtonLook::Normal, start_game: false, exit: false },
    }
}

/// The response of a button to the pointer: its look follows the pointer,
/// and a press starts the game or exits, as the button says (settings do
/// nothing yet).
pub fn button_response(pointer: Pointer, action: ButtonAction) -> (r: ButtonResponse)
    ensures
        r == button_response_spec(pointer, action),
{
    match pointer {
        Pointer::Pressed => {
            let (start_game, exit) = match action {
                ButtonAction::StartGame => (true, false),
                ButtonAction::Exit => (false, true),
                ButtonAction::ShowSettings => (false, false),
            };
            ButtonResponse { look: ButtonLook::Pressed, start_game, exit }
        },
        Pointer::Hovered => ButtonResponse { look: ButtonLook::Hovered, start_game: false, exit: false },
        Pointer::Away => ButtonResponse { look: ButtonLook::Normal, start_game: false, exit: false },
    }
}

/// Escape toggles the exit menu: gives the cursor's visibility and the
/// menu's visibility afterwards. The cursor shows exactly while the menu does.
pub fn toggle_exit_menu(menu_visible: bool) -> (r: (bool, bool))
    ensures
        r.0 == !menu_visible,
        r.1 == !menu_visible,
{
    let cursor_visible = !menu_visible;
    (cursor_visible, !menu_visible)
}

} // verus!
