use cat_recycle_bin::controls::{menu_action, menu_checks, size_change_outcome, MenuAction, MenuChecks, SizeOutcome};
use cat_recycle_bin::settings::Settings;

#[test]
fn menu_ids_map_to_actions() {
    assert_eq!(menu_action("open"), Some(MenuAction::OpenRecycleBin));
    assert_eq!(menu_action("confirm"), Some(MenuAction::ToggleConfirm));
    assert_eq!(menu_action("sound"), Some(MenuAction::ToggleSound));
    assert_eq!(menu_action("size-100"), Some(MenuAction::SetSize(100)));
    assert_eq!(menu_action("size-150"), Some(MenuAction::SetSize(150)));
    assert_eq!(menu_action("size-200"), Some(MenuAction::SetSize(200)));
    assert_eq!(menu_action("size-300"), Some(MenuAction::SetSize(300)));
    assert_eq!(menu_action("choose-model"), Some(MenuAction::ChooseModel));
    assert_eq!(menu_action("restore-model"), Some(MenuAction::RestoreModel));
    assert_eq!(menu_action("exit"), Some(MenuAction::Exit));
    assert_eq!(menu_action("size-250"), None);
    assert_eq!(menu_action(""), None);
}

#[test]
fn menu_mirrors_preferences() {
    let s = Settings { confirm_delete: false, sound_enabled: true, scale_percent: 150 };
    assert_eq!(
        menu_checks(&s, true),
        MenuChecks {
            confirm: false,
            sound: true,
            size_100: false,
            size_150: true,
            size_200: false,
            size_300: false,
            restore_model_enabled: true
        }
    );
    let d = menu_checks(&Settings::default(), false);
    assert!(d.size_200 && !d.size_100 && !d.size_150 && !d.size_300 && !d.restore_model_enabled);
}

#[test]
fn failed_save_reverts_the_size() {
    let s = Settings { confirm_delete: true, sound_enabled: true, scale_percent: 300 };
    assert_eq!(size_change_outcome(200, Ok(s)), SizeOutcome::Saved(s));
    assert_eq!(size_change_outcome(200, Err("disk full".to_string())), SizeOutcome::Revert(200, "disk full".to_string()));
}
