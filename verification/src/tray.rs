//! The tray icon: what the application does when something happens to it.

use vstd::prelude::*;

verus! {

/// The identifier of the menu entry that ends the application.
pub open spec fn quit_id() -> Seq<char> {
    "quit"@
}

/// Something that happened to the tray icon.
pub enum TrayEvent {
    /// The icon was clicked with the left button.
    LeftClick,
    /// An entry of the icon's menu was chosen.
    MenuItemClick { id: String },
    /// Anything else.
    Other,
}

/// What the application does in answer to a [`TrayEvent`].
#[derive(Debug, PartialEq, Eq, Structural, Clone, Copy)]
pub enum TrayAction {
    /// Nothing at all.
    Ignore,
    /// End the process with the given exit code.
    Exit { code: i32 },
}

/// The answer to an event, as a function of it.
pub open spec fn answer(event: TrayEvent) -> TrayAction {
    match event {
        TrayEvent::MenuItemClick { id } => if id@ == quit_id() {
            TrayAction::Exit { code: 0 }
        } else {
            TrayAction::Ignore
        },
        _ => TrayAction::Ignore,
    }
}

/// The identifier of the menu entry that ends the application.
pub fn quit_item_id() -> (id: &'static str)
    ensures
        id@ == quit_id(),
{
    "quit"
}

/// Decides what to do about an event: the menu entry that ends the
/// application ends it with code 0, and nothing else has any effect.
pub fn on_tray_event(event: &TrayEvent) -> (action: TrayAction)
    ensures
        action == answer(*event),
{
    match event {
        TrayEvent::MenuItemClick { id } => {
            let quit = String::from_str(quit_item_id());
            if *id == quit {
                TrayAction::Exit { code: 0 }
            } else {
                TrayAction::Ignore
            }
        },
        _ => TrayAction::Ignore,
    }
}

} // verus!
