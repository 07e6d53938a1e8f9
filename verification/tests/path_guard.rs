use cat_recycle_bin::path_guard::{contains_path, in_recycle_bin, normalized};

#[test]
fn path_guard_recognizes_ancestors_without_matching_sibling_names() {
    let own = "C:\\Apps\\Cat Bin\\cat-recycle-bin.exe";
    assert!(contains_path("C:\\Apps\\Cat Bin", own));
    assert!(!contains_path("C:\\Apps\\Cat", own));
    assert!(!contains_path("C:\\Apps\\Cat Bin 2", own));
}

#[test]
fn normalized_unifies_separators_and_case() {
    assert_eq!(normalized("C:/Users/Me/Desktop/Cat.TXT"), "c:\\users\\me\\desktop\\cat.txt");
    assert_eq!(normalized("D:\\Data"), "d:\\data");
    assert_eq!(normalized(""), "");
}

#[test]
fn contains_path_ignores_case_and_separator_kind() {
    assert!(contains_path("c:/apps/CAT BIN", "C:\\Apps\\Cat Bin\\data\\x.json"));
    assert!(contains_path("C:\\Apps\\Cat Bin\\", "C:\\Apps\\Cat Bin\\x"));
    assert!(contains_path("C:\\Apps\\Cat Bin\\\\", "C:\\Apps\\Cat Bin\\x"));
    assert!(!contains_path("C:\\Apps\\Cat Bin\\x", "C:\\Apps\\Cat Bin"));
}

#[test]
fn contains_path_is_reflexive() {
    for p in ["C:\\", "C:\\Apps", "relative", ""] {
        assert!(contains_path(p, p));
    }
}

#[test]
fn contains_path_is_transitive_on_examples() {
    let a = "C:\\Apps";
    let b = "C:\\Apps\\Cat Bin\\";
    let c = "C:\\Apps\\Cat Bin\\data\\settings.json";
    assert!(contains_path(a, b));
    assert!(contains_path(b, c));
    assert!(contains_path(a, c));
}

#[test]
fn recycle_bin_folders_are_recognized() {
    assert!(in_recycle_bin("C:\\$Recycle.Bin"));
    assert!(in_recycle_bin("C:\\$RECYCLE.BIN\\S-1-5-21\\$R1.txt"));
    assert!(in_recycle_bin("D:/$recycle.bin/x"));
    assert!(!in_recycle_bin("C:\\$Recycle.Bin2\\x"));
    assert!(!in_recycle_bin("C:\\Users\\Me\\recycle.bin"));
}
