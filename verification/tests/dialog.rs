use imfile::DialogError;
use imfile::DialogMode;
use imfile::DirEntry;
use imfile::DirPath;
use imfile::FileDialog;
use imfile::UiAction;
use imfile::UiEvent;

fn entry(name: &str, is_dir: bool) -> DirEntry {
    DirEntry { name: String::from(name), is_dir }
}

fn path(components: &[&str]) -> DirPath {
    DirPath { components: components.iter().map(|c| c.to_string()).collect() }
}

#[test]
fn new_has_documented_defaults() {
    let d = FileDialog::new();
    assert_eq!(d.title, "Open File");
    assert_eq!(d.accept_text, "Open");
    assert_eq!(d.cancel_text, "Cancel");
    assert_eq!(d.filename, "");
    assert_eq!(d.mode, DialogMode::Open);
    assert!(!d.dirs_only);
    assert!(!d.show_hidden_files);
    assert!(d.current_directory.components.is_empty());
    assert_eq!(d.last_error, None);
}

#[test]
fn default_is_the_same_as_new() {
    let d = FileDialog::default();
    assert_eq!(d.title, "Open File");
    assert_eq!(d.accept_text, "Open");
    assert_eq!(d.cancel_text, "Cancel");
    assert_eq!(d.mode, DialogMode::Open);
    assert!(!d.dirs_only && !d.show_hidden_files);
}

#[test]
fn builders_configure_the_dialog() {
    let d = FileDialog::new()
        .title(String::from("Pick a file"))
        .accept_text(String::from("Choose"))
        .cancel_text(String::from("Never mind"));
    assert_eq!(d.title, "Pick a file");
    assert_eq!(d.accept_text, "Choose");
    assert_eq!(d.cancel_text, "Never mind");
    assert_eq!(d.mode, DialogMode::Open);
}

#[test]
fn for_save_keeps_dirs_only() {
    let d = FileDialog::new().dir_only();
    assert!(d.dirs_only);
    let d = d.for_save();
    assert_eq!(d.mode, DialogMode::Save);
    assert!(d.dirs_only);
}

#[test]
fn builders_commute() {
    let a = FileDialog::new().dir_only().for_save();
    let b = FileDialog::new().for_save().dir_only();
    assert_eq!(a.mode, b.mode);
    assert_eq!(a.dirs_only, b.dirs_only);
    let a = FileDialog::new().title(String::from("T")).for_save();
    let b = FileDialog::new().for_save().title(String::from("T"));
    assert_eq!(a.title, b.title);
    assert_eq!(a.mode, b.mode);
}

#[test]
fn entry_controls_are_labelled_and_sorted() {
    let mut d = FileDialog::new();
    d.set_directory(path(&["home"]));
    let listing = vec![entry("b.txt", false), entry("A", true), entry(".hidden", false)];
    let controls = d.entry_controls(listing);
    assert_eq!(controls.len(), 2);
    assert_eq!(controls[0].label, "[dir] \tA");
    assert_eq!(controls[0].name, "A");
    assert!(controls[0].is_dir);
    assert_eq!(controls[1].label, "[file]\tb.txt");
    assert_eq!(controls[1].name, "b.txt");
    assert!(!controls[1].is_dir);
}

#[test]
fn hidden_toggle_grows_the_listing() {
    let mut d = FileDialog::new();
    let listing = || vec![entry("b.txt", false), entry("A", true), entry(".hidden", false)];
    let before: Vec<String> = d
        .entry_controls(listing())
        .iter()
        .map(|c| c.name.clone())
        .collect();
    let action = d.handle_event(&Vec::new(), UiEvent::HiddenToggled);
    assert_eq!(action, UiAction::Idle);
    assert!(d.show_hidden_files);
    let after: Vec<String> = d
        .entry_controls(listing())
        .iter()
        .map(|c| c.name.clone())
        .collect();
    for name in &before {
        assert!(after.contains(name));
    }
    assert_eq!(after, vec!["A".to_string(), ".hidden".to_string(), "b.txt".to_string()]);
}

#[test]
fn dirs_only_never_yields_file_controls() {
    let mut d = FileDialog::new().dir_only();
    d.set_directory(path(&["home"]));
    let listing = vec![
        entry("notes.txt", false),
        entry("music", true),
        entry("cat.png", false),
        entry("docs", true),
    ];
    let controls = d.entry_controls(listing);
    assert_eq!(controls.len(), 2);
    assert!(controls.iter().all(|c| c.is_dir));
    assert_eq!(controls[0].name, "docs");
    assert_eq!(controls[1].name, "music");
}

#[test]
fn selecting_a_file_returns_its_full_path() {
    let mut d = FileDialog::new();
    d.set_directory(path(&["home", "user"]));
    let listing = vec![entry("b.txt", false), entry("A", true)];
    let controls = d.entry_controls(listing);
    let action = d.handle_event(&controls, UiEvent::EntryClicked(1));
    assert_eq!(action, UiAction::SelectPath(path(&["home", "user", "b.txt"])));
    assert_eq!(d.current_directory, path(&["home", "user"]));
    assert_eq!(d.last_error, None);
}

#[test]
fn entering_a_directory_and_back_round_trips() {
    let mut d = FileDialog::new();
    d.set_directory(path(&["home", "user"]));
    let listing = vec![entry("b.txt", false), entry("A", true)];
    let controls = d.entry_controls(listing);

    let action = d.handle_event(&controls, UiEvent::EntryClicked(0));
    let target = match action {
        UiAction::Navigate(t) => t,
        other => panic!("expected a navigation, got {:?}", other),
    };
    assert_eq!(target, path(&["home", "user", "A"]));
    d.finish_navigation(target, true);
    assert_eq!(d.current_directory, path(&["home", "user", "A"]));

    let action = d.handle_event(&Vec::new(), UiEvent::BackClicked);
    let target = match action {
        UiAction::Navigate(t) => t,
        other => panic!("expected a navigation, got {:?}", other),
    };
    d.finish_navigation(target, true);
    assert_eq!(d.current_directory, path(&["home", "user"]));
}

#[test]
fn back_at_the_root_stays_at_the_root() {
    let mut d = FileDialog::new();
    let action = d.handle_event(&Vec::new(), UiEvent::BackClicked);
    match action {
        UiAction::Navigate(t) => assert!(t.components.is_empty()),
        other => panic!("expected a navigation, got {:?}", other),
    }
}

#[test]
fn breadcrumb_navigates_to_the_ancestor() {
    let mut d = FileDialog::new();
    d.set_directory(path(&["home", "user", "music"]));
    let action = d.handle_event(&Vec::new(), UiEvent::BreadcrumbClicked(0));
    assert_eq!(action, UiAction::Navigate(path(&["home"])));
    let action = d.handle_event(&Vec::new(), UiEvent::BreadcrumbClicked(2));
    assert_eq!(action, UiAction::Navigate(path(&["home", "user", "music"])));
    let action = d.handle_event(&Vec::new(), UiEvent::BreadcrumbClicked(3));
    assert_eq!(action, UiAction::Idle);
}

#[test]
fn failed_navigation_leaves_the_cursor_and_records_the_error() {
    let mut d = FileDialog::new();
    d.set_directory(path(&["home"]));
    d.finish_navigation(path(&["home", "locked"]), false);
    assert_eq!(d.current_directory, path(&["home"]));
    assert_eq!(d.last_error, Some(DialogError::ChangeDirFailed));
    d.finish_navigation(path(&["home", "open"]), true);
    assert_eq!(d.current_directory, path(&["home", "open"]));
    assert_eq!(d.last_error, None);
}

#[test]
fn unreadable_listing_is_recorded() {
    let mut d = FileDialog::new();
    d.note_read_error();
    assert_eq!(d.last_error, Some(DialogError::ReadDirFailed));
    assert!(d.current_directory.components.is_empty());
}

#[test]
fn accept_does_nothing() {
    let mut d = FileDialog::new().for_save();
    d.set_directory(path(&["home"]));
    let action = d.handle_event(&Vec::new(), UiEvent::AcceptClicked);
    assert_eq!(action, UiAction::Idle);
    assert_eq!(d.current_directory, path(&["home"]));
}

#[test]
fn entry_click_out_of_range_is_idle() {
    let mut d = FileDialog::new();
    let controls = d.entry_controls(vec![entry("a", true)]);
    let action = d.handle_event(&controls, UiEvent::EntryClicked(5));
    assert_eq!(action, UiAction::Idle);
}

#[test]
fn path_operations() {
    let p = path(&["home", "user"]);
    let child = p.child("music");
    assert_eq!(child, path(&["home", "user", "music"]));
    assert_eq!(child.parent(), p);
    assert_eq!(p.ancestor(1), path(&["home"]));
    assert_eq!(p.depth(), 2);
    let root = DirPath::root();
    assert_eq!(root.parent(), DirPath::root());
    assert_eq!(p.duplicate(), p);
}
