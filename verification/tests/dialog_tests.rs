use pet4032::file_dialog::FileDialog;

#[test]
fn test_file_dialog_new() {
    let dialog = FileDialog::new("./software");
    assert!(!dialog.is_visible());
}

#[test]
fn test_file_dialog_visibility() {
    let mut dialog = FileDialog::new("./software");
    dialog.show();
    assert!(dialog.is_visible());
    dialog.hide_dialog();
    assert!(!dialog.is_visible());
}

#[test]
fn test_file_dialog_selection_moves() {
    let mut dialog = FileDialog::new("./software");
    dialog.set_entries(
        vec!["a.prg".to_string(), "b.prg".to_string(), "sub".to_string()],
        vec![false, false, true],
    );
    assert_eq!(dialog.selected_index(), 0);
    dialog.move_selection_up(); // already at the top
    assert_eq!(dialog.selected_index(), 0);
    dialog.move_selection_down();
    dialog.move_selection_down();
    assert_eq!(dialog.selected_index(), 2);
    dialog.move_selection_down(); // already at the bottom
    assert_eq!(dialog.selected_index(), 2);
    dialog.move_selection_up();
    assert_eq!(dialog.selected_index(), 1);
}

#[test]
fn test_file_dialog_select_prg() {
    let mut dialog = FileDialog::new("./software");
    dialog.show();
    dialog.set_entries(vec!["game.prg".to_string()], vec![false]);
    let picked = dialog.select_current();
    assert_eq!(picked, Some("./software/game.prg".to_string()));
    assert!(!dialog.is_visible());
}

#[test]
fn test_file_dialog_select_directory() {
    let mut dialog = FileDialog::new("./software");
    dialog.set_entries(
        vec!["demos".to_string(), "x.prg".to_string()],
        vec![true, false],
    );
    let picked = dialog.select_current();
    assert_eq!(picked, None);
    assert_eq!(dialog.current_dir(), "./software/demos");
    assert_eq!(dialog.selected_index(), 0);
    assert!(dialog.entries().is_empty()); // the host refills the listing
}

#[test]
fn test_file_dialog_ignores_other_files() {
    let mut dialog = FileDialog::new("./software");
    dialog.set_entries(vec!["readme.txt".to_string()], vec![false]);
    assert_eq!(dialog.select_current(), None);
    assert_eq!(dialog.current_dir(), "./software");
}

#[test]
fn test_file_dialog_go_up() {
    let mut dialog = FileDialog::new("./software/demos");
    dialog.go_up();
    assert_eq!(dialog.current_dir(), "./software");
    dialog.go_up();
    assert_eq!(dialog.current_dir(), ".");
    dialog.go_up();
    assert_eq!(dialog.current_dir(), "");
    dialog.go_up(); // the empty directory has no parent
    assert_eq!(dialog.current_dir(), "");
}

#[test]
fn test_file_dialog_selection_clamped_on_refresh() {
    let mut dialog = FileDialog::new("./software");
    dialog.set_entries(
        vec!["a".to_string(), "b".to_string(), "c".to_string()],
        vec![true, true, true],
    );
    dialog.move_selection_down();
    dialog.move_selection_down();
    assert_eq!(dialog.selected_index(), 2);
    dialog.set_entries(vec!["a".to_string()], vec![true]);
    assert_eq!(dialog.selected_index(), 0);
    dialog.set_entries(Vec::new(), Vec::new());
    assert_eq!(dialog.selected_index(), 0);
}
