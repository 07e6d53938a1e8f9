use cat_recycle_bin::recycle_bin::{
    confirm_prompt, next_drop_action, recycle_outcome, validate_paths, BinResult, ConfirmPrompt, DropAction,
    DropCandidate, DropError, DropEvent, ProtectedPath, RecycleError,
};
use cat_recycle_bin::settings::Settings;

fn good(path: &str) -> DropCandidate {
    DropCandidate {
        shown: path.to_string(),
        absolute: true,
        has_file_name: true,
        metadata: Ok(()),
        canonical: Ok(path.to_string()),
        fixed_volume: Ok(true),
    }
}

fn no_protection() -> Vec<ProtectedPath> {
    Vec::new()
}

#[test]
fn empty_drop_is_refused() {
    let r = validate_paths(&Vec::new(), &no_protection());
    assert_eq!(r, Err(DropError::NothingDropped));
    assert_eq!(r.unwrap_err().message(), "没有收到可回收的文件或文件夹");
}

#[test]
fn accepts_independent_items_on_fixed_disks() {
    let drop = vec![good("C:\\Users\\Me\\a.txt"), good("C:\\Users\\Me\\b"), good("D:\\x")];
    assert_eq!(validate_paths(&drop, &no_protection()), Ok(()));
}

#[test]
fn rejects_drive_root() {
    // What Windows reports for `C:\`: an absolute path without a final component.
    let root = DropCandidate {
        shown: "C:\\".to_string(),
        absolute: true,
        has_file_name: false,
        metadata: Ok(()),
        canonical: Ok("\\\\?\\C:\\".to_string()),
        fixed_volume: Ok(true),
    };
    assert!(validate_paths(&vec![root], &no_protection()).is_err());
}

#[test]
fn refuses_drive_roots_and_relative_paths() {
    let mut root = good("C:\\");
    root.has_file_name = false;
    let r = validate_paths(&vec![root], &no_protection());
    assert_eq!(r, Err(DropError::InvalidPath("C:\\".to_string())));
    assert_eq!(r.unwrap_err().message(), "不能回收磁盘根目录或无效路径：C:\\");
    let mut rel = good("notes.txt");
    rel.absolute = false;
    assert_eq!(validate_paths(&vec![rel], &no_protection()), Err(DropError::InvalidPath("notes.txt".to_string())));
}

#[test]
fn refuses_unreadable_paths() {
    let mut gone = good("C:\\gone.txt");
    gone.metadata = Err("not found".to_string());
    let r = validate_paths(&vec![gone], &no_protection());
    assert_eq!(r, Err(DropError::Unreadable("C:\\gone.txt".to_string(), "not found".to_string())));
    assert_eq!(r.unwrap_err().message(), "C:\\gone.txt：not found");
    let mut broken = good("C:\\link");
    broken.canonical = Err("broken link".to_string());
    assert_eq!(
        validate_paths(&vec![broken], &no_protection()),
        Err(DropError::Unreadable("C:\\link".to_string(), "broken link".to_string()))
    );
}

#[test]
fn refuses_items_inside_the_recycle_bin() {
    let drop = vec![good("C:\\$Recycle.Bin\\S-1\\$R0.txt")];
    let r = validate_paths(&drop, &no_protection());
    assert_eq!(r, Err(DropError::InsideRecycleBin));
    assert_eq!(r.unwrap_err().message(), "不能回收 Windows 回收站中的项目");
}

#[test]
fn rejects_protected_data_and_overlapping_drop_paths() {
    let root = "C:\\Temp\\guard";
    let child = "C:\\Temp\\guard\\child.txt";
    let protect_root = vec![ProtectedPath { canonical: Some(root.to_string()), is_dir: true }];
    assert!(validate_paths(&vec![good(child)], &protect_root).is_err());
    assert!(validate_paths(&vec![good(root), good(child)], &no_protection()).is_err());
}

#[test]
fn refuses_the_applications_own_files() {
    let exe = vec![ProtectedPath { canonical: Some("C:\\Apps\\Cat Bin\\cat.exe".to_string()), is_dir: false }];
    // Dropping the folder that holds the executable.
    let r = validate_paths(&vec![good("C:\\Apps\\Cat Bin")], &exe);
    assert_eq!(r, Err(DropError::ProtectedData("C:\\Apps\\Cat Bin".to_string())));
    assert_eq!(r.unwrap_err().message(), "不能回收程序文件或设置数据：C:\\Apps\\Cat Bin");
    // A file beside a protected file is fine.
    assert_eq!(validate_paths(&vec![good("C:\\Apps\\Cat Bin\\readme.txt")], &exe), Ok(()));
    // Inside a protected folder.
    let config = vec![ProtectedPath { canonical: Some("C:\\Users\\Me\\AppData\\cat".to_string()), is_dir: true }];
    assert!(matches!(
        validate_paths(&vec![good("C:\\Users\\Me\\AppData\\cat\\settings.json")], &config),
        Err(DropError::ProtectedData(_))
    ));
    // Missing protected entries protect nothing.
    let missing = vec![ProtectedPath { canonical: None, is_dir: true }];
    assert_eq!(validate_paths(&vec![good("C:\\x")], &missing), Ok(()));
}

#[test]
fn refuses_duplicates_and_nesting() {
    let r = validate_paths(&vec![good("C:\\a"), good("c:/A")], &no_protection());
    assert_eq!(r, Err(DropError::Overlapping));
    assert_eq!(r.unwrap_err().message(), "拖入的项目存在重复或父子目录重叠");
    assert_eq!(validate_paths(&vec![good("C:\\a\\b"), good("C:\\a")], &no_protection()), Err(DropError::Overlapping));
    assert_eq!(validate_paths(&vec![good("C:\\a"), good("C:\\ab")], &no_protection()), Ok(()));
}

#[test]
fn refuses_network_and_removable_volumes() {
    let mut usb = good("E:\\photo.jpg");
    usb.fixed_volume = Ok(false);
    let r = validate_paths(&vec![usb], &no_protection());
    assert_eq!(r, Err(DropError::UnsupportedVolume("E:\\photo.jpg".to_string())));
    assert_eq!(r.unwrap_err().message(), "此位置不支持安全移入 Windows 回收站：E:\\photo.jpg");
    let mut odd = good("Z:\\x");
    odd.fixed_volume = Err("access denied".to_string());
    let r = validate_paths(&vec![odd], &no_protection());
    assert_eq!(r, Err(DropError::UnknownVolume("Z:\\x".to_string(), "access denied".to_string())));
    assert_eq!(r.unwrap_err().message(), "无法识别所在磁盘 Z:\\x：access denied");
}

#[test]
fn first_failed_check_in_drop_order_is_reported() {
    let mut usb = good("E:\\a");
    usb.fixed_volume = Ok(false);
    let mut rel = good("b");
    rel.absolute = false;
    assert_eq!(
        validate_paths(&vec![usb, rel], &no_protection()),
        Err(DropError::UnsupportedVolume("E:\\a".to_string()))
    );
}

#[test]
fn bin_results() {
    let s = BinResult::success();
    assert!(s.ok && s.error.is_none() && s.cancelled.is_none());
    let f = BinResult::failure("boom".to_string());
    assert!(!f.ok && f.error.as_deref() == Some("boom") && f.cancelled.is_none());
    let c = BinResult::cancelled();
    assert!(!c.ok && c.error.is_none() && c.cancelled == Some(true));
}

#[test]
fn drop_flow() {
    let a = next_drop_action(DropEvent::Checked(Err(DropError::Overlapping)));
    assert_eq!(a, DropAction::Finish(BinResult::failure("拖入的项目存在重复或父子目录重叠".to_string())));
    assert_eq!(next_drop_action(DropEvent::Checked(Ok(()))), DropAction::ReadSettings);
    assert_eq!(
        next_drop_action(DropEvent::SettingsRead(Err("poisoned".to_string()))),
        DropAction::Finish(BinResult::failure("poisoned".to_string()))
    );
    let ask = Settings { confirm_delete: true, sound_enabled: true, scale_percent: 200 };
    assert_eq!(next_drop_action(DropEvent::SettingsRead(Ok(ask))), DropAction::AskConfirmation);
    let quiet = Settings { confirm_delete: false, sound_enabled: true, scale_percent: 200 };
    assert_eq!(next_drop_action(DropEvent::SettingsRead(Ok(quiet))), DropAction::Recycle);
    assert_eq!(next_drop_action(DropEvent::Answered(true)), DropAction::Recycle);
    assert_eq!(next_drop_action(DropEvent::Answered(false)), DropAction::Finish(BinResult::cancelled()));
    assert_eq!(next_drop_action(DropEvent::Recycled(Ok(()))), DropAction::Finish(BinResult::success()));
    assert_eq!(
        next_drop_action(DropEvent::Recycled(Err("denied".to_string()))),
        DropAction::Finish(BinResult::failure("denied".to_string()))
    );
}

#[test]
fn recycle_outcomes() {
    assert_eq!(recycle_outcome(true, &vec![false]), Err(RecycleError::Aborted));
    assert_eq!(recycle_outcome(false, &vec![false, true]), Err(RecycleError::NotRemoved));
    assert_eq!(recycle_outcome(false, &vec![false, false]), Ok(()));
    assert_eq!(RecycleError::Aborted.message(), "Windows 中止了部分或全部回收操作");
    assert_eq!(RecycleError::NotRemoved.message(), "至少一个项目仍在原位置，回收操作未完成");
}

#[test]
fn confirmation_prompt() {
    assert_eq!(confirm_prompt(vec!["a.txt".to_string()]), ConfirmPrompt::Single("a.txt".to_string()));
    assert_eq!(confirm_prompt(vec!["a".to_string(), "b".to_string()]), ConfirmPrompt::Several(2));
}
