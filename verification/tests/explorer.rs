use rmusic_tui::ui::explorer::file_explorer::list_files;
use rmusic_tui::ui::explorer::file_explorer::DirEntry;
use rmusic_tui::ui::explorer::file_explorer::Directory;
use rmusic_tui::ui::explorer::file_explorer::ExplorerKey;
use rmusic_tui::ui::explorer::file_explorer::Handled;
use rmusic_tui::ui::explorer::order::name_comes_first;
use rmusic_tui::ui::explorer::File;
use rmusic_tui::ui::explorer::FileExplorer;

fn file(name: &str) -> DirEntry {
    let extension = match name.rfind('.') {
        Some(0) | None => "",
        Some(dot) => &name[dot + 1..],
    };
    DirEntry {
        file_name: name.to_string(),
        path: format!("/music/{}", name),
        is_dir: false,
        extension: extension.to_string(),
    }
}

fn dir(name: &str) -> DirEntry {
    DirEntry {
        file_name: name.to_string(),
        path: format!("/music/{}", name),
        is_dir: true,
        extension: String::new(),
    }
}

fn music() -> Vec<DirEntry> {
    vec![
        file("b.opus"),
        dir("zeta"),
        file(".hidden.opus"),
        file("a.mp3"),
        dir("alpha"),
        dir(".git"),
        file("notes"),
        file("Z.opus"),
    ]
}

/// The directory `/music`.
fn here() -> Directory {
    Directory { path: "/music".to_string(), parents: vec!["/".to_string()] }
}

/// The root directory.
fn root() -> Directory {
    Directory { path: "/".to_string(), parents: vec![] }
}

fn names(files: &Vec<File>) -> Vec<String> {
    files.iter().map(|file| file.name().to_string()).collect()
}

#[test]
fn names_are_ordered_as_strings_are() {
    let words = ["", "a", "A", "ab", "b", "Z", "a/", "é", "z", "zz", "ab", "😀", "\u{7f}"];
    for a in words {
        for b in words {
            assert_eq!(name_comes_first(a, b), a <= b, "{:?} {:?}", a, b);
        }
    }
}

#[test]
fn listing_puts_the_way_up_first_then_directories_then_files_by_name() {
    let explorer = FileExplorer::new(here(), music());
    assert_eq!(
        names(explorer.files()),
        vec!["../", "alpha/", "zeta/", "Z.opus", "a.mp3", "b.opus", "notes"]
    );
    assert_eq!(explorer.cwd(), "/music");
    assert_eq!(explorer.parents(), &vec!["/".to_string()]);
    assert_eq!(explorer.selected_idx(), 0);
    assert!(!explorer.show_hidden());
    let up = explorer.current();
    assert_eq!(up.name(), "../");
    assert_eq!(up.path(), "/");
    assert!(up.is_dir());
    let alpha = &explorer.files()[1];
    assert_eq!(alpha.name(), "alpha/");
    assert_eq!(alpha.path(), "/music/alpha");
    assert!(alpha.is_dir());
    let notes = &explorer.files()[6];
    assert_eq!(notes.name(), "notes");
    assert_eq!(notes.path(), "/music/notes");
    assert!(!notes.is_dir());
}

#[test]
fn listing_of_the_root_has_no_way_up() {
    let explorer = FileExplorer::new(root(), vec![file("b"), dir("a")]);
    assert_eq!(names(explorer.files()), vec!["a/", "b"]);
}

#[test]
fn filter_keeps_directories_and_files_with_a_listed_extension() {
    let filter = vec!["opus".to_string()];
    let explorer = FileExplorer::with_filter(here(), music(), filter);
    assert_eq!(names(explorer.files()), vec!["../", "alpha/", "zeta/", "Z.opus", "b.opus"]);
    let filter = vec!["mp3".to_string(), "".to_string()];
    let explorer = FileExplorer::with_filter(here(), music(), filter);
    assert_eq!(names(explorer.files()), vec!["../", "alpha/", "zeta/", "a.mp3", "notes"]);
}

#[test]
fn list_files_shows_hidden_files_when_asked() {
    let files = list_files(&Some("/".to_string()), &music(), &vec![], true);
    assert_eq!(
        names(&files),
        vec![
            "../", ".git/", "alpha/", "zeta/", ".hidden.opus", "Z.opus", "a.mp3", "b.opus",
            "notes"
        ]
    );
    let files = list_files(&None, &vec![], &vec![], true);
    assert_eq!(files.len(), 0);
}

#[test]
fn listing_keeps_every_entry_that_is_shown_even_with_equal_names() {
    let explorer = FileExplorer::new(root(), vec![file("a"), file("a"), dir("a"), file("a")]);
    assert_eq!(names(explorer.files()), vec!["a/", "a", "a", "a"]);
}

#[test]
fn set_filter_lists_anew_and_leaves_the_selection_where_it_is() {
    let mut explorer = FileExplorer::new(here(), music());
    explorer.set_selected_idx(6);
    assert_eq!(explorer.current().name(), "notes");
    explorer.set_filter(vec!["opus".to_string()], music());
    assert_eq!(names(explorer.files()), vec!["../", "alpha/", "zeta/", "Z.opus", "b.opus"]);
    assert_eq!(explorer.selected_idx(), 6);
    assert_eq!(explorer.selected_file(), None);
    explorer.set_selected_idx(1);
    explorer.set_filter(vec![], music());
    assert_eq!(explorer.files().len(), 7);
    assert_eq!(explorer.selected_idx(), 1);
}

#[test]
fn refresh_changes_nothing_but_the_files() {
    let mut explorer = FileExplorer::new(here(), music());
    explorer.set_selected_idx(5);
    explorer.refresh(vec![]);
    assert_eq!(names(explorer.files()), vec!["../"]);
    assert_eq!(explorer.selected_idx(), 5);
    assert_eq!(explorer.cwd(), "/music");
    assert!(!explorer.show_hidden());
    explorer.refresh(music());
    assert_eq!(explorer.files().len(), 7);
    assert_eq!(explorer.current().name(), "b.opus");
}

#[test]
fn set_cwd_goes_to_the_directory_and_selects_the_first_file() {
    let mut explorer = FileExplorer::new(here(), music());
    explorer.set_selected_idx(3);
    let alpha = Directory {
        path: "/music/alpha".to_string(),
        parents: vec!["/music".to_string(), "/".to_string()],
    };
    explorer.set_cwd(alpha, vec![file("x.opus")]);
    assert_eq!(explorer.cwd(), "/music/alpha");
    assert_eq!(explorer.selected_idx(), 0);
    assert_eq!(names(explorer.files()), vec!["../", "x.opus"]);
    assert_eq!(explorer.files()[0].path(), "/music");
}

#[test]
fn up_and_down_wrap_around() {
    let mut explorer = FileExplorer::new(here(), music());
    assert_eq!(explorer.handle_key(ExplorerKey::Up), Handled::Nothing);
    assert_eq!(explorer.selected_idx(), 6);
    assert_eq!(explorer.handle_key(ExplorerKey::Down), Handled::Nothing);
    assert_eq!(explorer.selected_idx(), 0);
    explorer.handle_key(ExplorerKey::Down);
    explorer.handle_key(ExplorerKey::Down);
    assert_eq!(explorer.selected_idx(), 2);
    explorer.handle_key(ExplorerKey::Up);
    assert_eq!(explorer.selected_idx(), 1);
    assert_eq!(explorer.handle_key(ExplorerKey::Other), Handled::Nothing);
    assert_eq!(explorer.selected_idx(), 1);
}

#[test]
fn empty_listing_takes_no_key() {
    let mut explorer = FileExplorer::new(root(), vec![]);
    assert_eq!(explorer.files().len(), 0);
    assert_eq!(explorer.selected_file(), None);
    for key in [
        ExplorerKey::Up,
        ExplorerKey::Down,
        ExplorerKey::Back,
        ExplorerKey::Select,
        ExplorerKey::HideToggle,
        ExplorerKey::Other,
    ] {
        assert!(!explorer.can_handle(key));
    }
    explorer.refresh(vec![file("a")]);
    assert!(explorer.can_handle(ExplorerKey::Select));
    assert!(explorer.can_handle(ExplorerKey::Down));
}

#[test]
fn select_needs_a_selection_inside_the_listing() {
    let mut explorer = FileExplorer::new(here(), music());
    explorer.set_selected_idx(6);
    explorer.refresh(vec![file("a")]);
    assert_eq!(explorer.selected_idx(), 6);
    assert!(!explorer.can_handle(ExplorerKey::Select));
    assert!(explorer.can_handle(ExplorerKey::Up));
    assert!(explorer.can_handle(ExplorerKey::Down));
    assert_eq!(explorer.handle_key(ExplorerKey::Down), Handled::Nothing);
    assert_eq!(explorer.selected_idx(), 7);
    assert_eq!(explorer.handle_key(ExplorerKey::Up), Handled::Nothing);
    assert_eq!(explorer.handle_key(ExplorerKey::Up), Handled::Nothing);
    assert_eq!(explorer.selected_idx(), 5);
}

#[test]
fn select_goes_into_a_directory_before_it_is_read() {
    let mut explorer = FileExplorer::new(here(), music());
    explorer.set_selected_idx(2);
    assert_eq!(
        explorer.handle_key(ExplorerKey::Select),
        Handled::Open("/music/zeta".to_string())
    );
    // The directory is changed and the entry gone, whether or not the
    // reading comes.
    assert_eq!(explorer.cwd(), "/music/zeta");
    assert_eq!(explorer.parents(), &vec!["/music".to_string(), "/".to_string()]);
    assert_eq!(
        names(explorer.files()),
        vec!["../", "alpha/", "notes", "Z.opus", "a.mp3", "b.opus"]
    );
    assert_eq!(explorer.selected_idx(), 2);

    explorer.take_reading(vec![file("inside")]);
    assert_eq!(names(explorer.files()), vec!["../", "inside"]);
    assert_eq!(explorer.files()[0].path(), "/music");
    assert_eq!(explorer.selected_idx(), 0);
    assert_eq!(explorer.cwd(), "/music/zeta");
}

#[test]
fn select_on_the_way_up_goes_to_the_directory_above() {
    let mut explorer = FileExplorer::new(here(), music());
    assert_eq!(explorer.handle_key(ExplorerKey::Select), Handled::Open("/".to_string()));
    assert_eq!(explorer.cwd(), "/");
    assert_eq!(explorer.parents().len(), 0);
    assert_eq!(explorer.files().len(), 6);
    assert_eq!(explorer.files()[0].name(), "notes");
    explorer.take_reading(in_root());
    assert_eq!(names(explorer.files()), vec!["music/"]);
}

#[test]
fn select_chooses_a_file() {
    let mut explorer = FileExplorer::new(here(), music());
    explorer.set_selected_idx(4);
    match explorer.handle_key(ExplorerKey::Select) {
        Handled::Chosen(file) => {
            assert_eq!(file.name(), "a.mp3");
            assert_eq!(file.path(), "/music/a.mp3");
            assert!(!file.is_dir());
            assert_eq!(&file, explorer.current());
        }
        other => panic!("{:?}", other),
    }
    assert_eq!(explorer.selected_idx(), 4);
    assert_eq!(explorer.files().len(), 7);
    assert_eq!(explorer.cwd(), "/music");
}

/// What reading the root gives.
fn in_root() -> Vec<DirEntry> {
    vec![DirEntry {
        file_name: "music".to_string(),
        path: "/music".to_string(),
        is_dir: true,
        extension: String::new(),
    }]
}

#[test]
fn back_goes_to_the_directory_above_before_it_is_read() {
    let mut explorer = FileExplorer::new(here(), music());
    explorer.set_selected_idx(5);
    assert_eq!(explorer.handle_key(ExplorerKey::Back), Handled::Open("/".to_string()));
    assert_eq!(explorer.cwd(), "/");
    assert_eq!(explorer.parents().len(), 0);
    assert_eq!(explorer.selected_idx(), 5);
    assert_eq!(explorer.files().len(), 7);
    // In the root there is no way up.
    assert_eq!(explorer.handle_key(ExplorerKey::Back), Handled::Nothing);
    assert_eq!(explorer.cwd(), "/");
    // The reading that the first key asked for was given up by the second.
    explorer.take_reading(in_root());
    assert_eq!(names(explorer.files()), vec!["music/"]);
    assert_eq!(explorer.selected_idx(), 5);
    assert!(!explorer.can_handle(ExplorerKey::Select));
    explorer.set_selected_idx(0);
    assert_eq!(explorer.handle_key(ExplorerKey::Select), Handled::Open("/music".to_string()));
    assert_eq!(explorer.cwd(), "/music");
    assert_eq!(explorer.parents(), &vec!["/".to_string()]);
    assert_eq!(explorer.files().len(), 0);
    explorer.take_reading(music());
    assert_eq!(explorer.files().len(), 7);
    explorer.set_selected_idx(4);
    assert_eq!(explorer.handle_key(ExplorerKey::Back), Handled::Open("/".to_string()));
    explorer.take_reading(in_root());
    assert_eq!(explorer.selected_idx(), 0);
    assert_eq!(explorer.cwd(), "/");
}

#[test]
fn hide_toggle_asks_for_a_new_reading() {
    let mut explorer = FileExplorer::new(here(), music());
    assert_eq!(explorer.handle_key(ExplorerKey::HideToggle), Handled::Reread);
    assert!(explorer.show_hidden());
    assert_eq!(explorer.files().len(), 7);
    explorer.take_reading(music());
    assert_eq!(explorer.files().len(), 9);
    assert_eq!(explorer.files()[1].name(), ".git/");
    assert_eq!(explorer.selected_idx(), 0);
}

#[test]
fn selection_behind_the_new_listing_goes_to_the_last_place_of_the_old_one() {
    let mut explorer = FileExplorer::new(here(), music());
    explorer.handle_key(ExplorerKey::HideToggle);
    explorer.take_reading(music());
    explorer.set_selected_idx(7);
    assert_eq!(explorer.handle_key(ExplorerKey::HideToggle), Handled::Reread);
    // Seven files are left; the selection lies behind them and goes to the
    // last of the nine that were.
    explorer.take_reading(music());
    assert_eq!(explorer.files().len(), 7);
    assert_eq!(explorer.selected_idx(), 8);
    assert_eq!(explorer.selected_file(), None);

    explorer.set_selected_idx(3);
    explorer.handle_key(ExplorerKey::HideToggle);
    explorer.take_reading(music());
    assert_eq!(explorer.selected_idx(), 3);
    explorer.handle_key(ExplorerKey::HideToggle);
    explorer.take_reading(music());
    assert_eq!(explorer.selected_idx(), 3);
    assert_eq!(explorer.files().len(), 7);
    assert!(!explorer.show_hidden());
}

#[test]
fn renderer_highlights_the_selected_file() {
    let mut explorer = FileExplorer::new(here(), music());
    assert_eq!(explorer.widget().selected(), Some(0));
    assert!(explorer.widget().highlights_dir());
    explorer.set_selected_idx(3);
    assert_eq!(explorer.widget().selected(), Some(3));
    assert!(!explorer.widget().highlights_dir());
    let empty = FileExplorer::new(root(), vec![]);
    assert_eq!(empty.widget().selected(), Some(0));
    assert!(!empty.widget().highlights_dir());
}
