use vstd::prelude::*;

use crate::model::same_text;
use crate::settings::{Settings, spec_valid_scale};

verus! {

/// What a tray menu item asks for.
#[derive(Clone, Copy, Debug, PartialEq, Eq, Structural)]
pub enum MenuAction {
    OpenRecycleBin,
    ToggleConfirm,
    ToggleSound,
    SetSize(u16),
    ChooseModel,
    RestoreModel,
    Exit,
}

/// The action of the menu item with identifier `id`.
pub open spec fn spec_menu_action(id: Seq<char>) -> Option<MenuAction> {
    if id == "open"@ {
        Some(MenuAction::OpenRecycleBin)
    } else if id == "confirm"@ {
        Some(MenuAction::ToggleConfirm)
    } else if id == "sound"@ {
        Some(MenuAction::ToggleSound)
    } else if id == "size-100"@ {
        Some(MenuAction::SetSize(100))
    } else if id == "size-150"@ {
        Some(MenuAction::SetSize(150))
    } else if id == "size-200"@ {
        Some(MenuAction::SetSize(200))
    } else if id == "size-300"@ {
        Some(MenuAction::SetSize(300))
    } else if id == "choose-model"@ {
        Some(MenuAction::ChooseModel)
    } else if id == "restore-model"@ {
        Some(MenuAction::RestoreModel)
    } else if id == "exit"@ {
        Some(MenuAction::Exit)
    } else {
        None
    }
}

/// The action of the tray menu item with identifier `id`; unknown items do nothing.
pub fn menu_action(id: &str) -> (a: Option<MenuAction>)
    ensures
        a == spec_menu_action(id@),
{
    if same_text(id, "open") {
        Some(MenuAction::OpenRecycleBin)
    } else if same_text(id, "confirm") {
        Some(MenuAction::ToggleConfirm)
    } else if same_text(id, "sound") {
        Some(MenuAction::ToggleSound)
    } else if same_text(id, "size-100") {
        Some(MenuAction::SetSize(100))
    } else if same_text(id, "size-150") {
        Some(MenuAction::SetSize(150))
    } else if same_text(id, "size-200") {
        Some(MenuAction::SetSize(200))
    } else if same_text(id, "size-300") {
        Some(MenuAction::SetSize(300))
    } else if same_text(id, "choose-model") {
        Some(MenuAction::ChooseModel)
    } else if same_text(id, "restore-model") {
        Some(MenuAction::RestoreModel)
    } else if same_text(id, "exit") {
        Some(MenuAction::Exit)
    } else {
        None
    }
}

/// The check marks and enabled state the tray menu shows.
#[derive(Clone, Copy, Debug, PartialEq, Eq, Structural)]
pub struct MenuChecks {
    pub confirm: bool,
    pub sound: bool,
    pub size_100: bool,
    pub size_150: bool,
    pub size_200: bool,
    pub size_300: bool,
    pub restore_model_enabled: bool,
}

/// The menu state that mirrors the preferences (and whether a custom model is in use).
pub fn menu_checks(settings: &Settings, custom_model: bool) -> (m: MenuChecks)
    ensures
        m.confirm == settings.confirm_delete,
        m.sound == settings.sound_enabled,
        m.size_100 == (settings.scale_percent == 100),
        m.size_150 == (settings.scale_percent == 150),
        m.size_200 == (settings.scale_percent == 200),
        m.size_300 == (settings.scale_percent == 300),
        m.restore_model_enabled == custom_model,
{
    MenuChecks {
        confirm: settings.confirm_delete,
        sound: settings.sound_enabled,
        size_100: settings.scale_percent == 100,
        size_150: settings.scale_percent == 150,
        size_200: settings.scale_percent == 200,
        size_300: settings.scale_percent == 300,
        restore_model_enabled: custom_model,
    }
}

/// How many size items carry a check mark.
pub open spec fn checked_sizes(m: MenuChecks) -> int {
    (if m.size_100 { 1int } else { 0int }) + (if m.size_150 { 1int } else { 0int }) + (if m.size_200 {
        1int
    } else {
        0int
    }) + (if m.size_300 { 1int } else { 0int })
}

/// For well-formed preferences exactly one size item is checked: the one
/// of the current size.
pub proof fn lemma_one_size_checked(settings: Settings, m: MenuChecks)
    requires
        settings.wf(),
        m.size_100 == (settings.scale_percent == 100),
        m.size_150 == (settings.scale_percent == 150),
        m.size_200 == (settings.scale_percent == 200),
        m.size_300 == (settings.scale_percent == 300),
    ensures
        checked_sizes(m) == 1,
{
}

/// Every size the menu offers is a supported size.
pub proof fn lemma_menu_sizes_supported(id: Seq<char>, value: u16)
    requires
        spec_menu_action(id) == Some(MenuAction::SetSize(value)),
    ensures
        spec_valid_scale(value),
{
}

/// How a size change ends once the window was resized and the new size saved.
#[derive(Debug, PartialEq, Eq)]
pub enum SizeOutcome {
    /// The new preferences were saved; the menu shows them.
    Saved(Settings),
    /// Saving failed: the window goes back to the previous size and the error is reported.
    Revert(u16, String),
}

/// After the window took the new size: keep it when the preferences were
/// saved, otherwise go back to the size it had before.
pub fn size_change_outcome(previous: u16, saved: Result<Settings, String>) -> (o: SizeOutcome)
    ensures
        match saved {
            Ok(s) => o == SizeOutcome::Saved(s),
            Err(e) => o == SizeOutcome::Revert(previous, e),
        },
{
    match saved {
        Ok(s) => SizeOutcome::Saved(s),
        Err(e) => SizeOutcome::Revert(previous, e),
    }
}

} // verus!
