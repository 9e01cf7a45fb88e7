use ratatui_eventInput::Input;
use ratatui_eventInput::Key;
use ratatui_eventInput::Modifier;
use ratatui_eventInput::Side;
use rmusic_tui::queue::QueueItem;
use rmusic_tui::settings::input::Navigation;
use rmusic_tui::ui::explorer::file_explorer::Directory;
use rmusic_tui::ui::explorer::FileExplorer;
use rmusic_tui::ui::library_view::LibraryViewer;
use rmusic_tui::ui::tabs::input_to_log_event;
use rmusic_tui::ui::tabs::show_queue_item;
use rmusic_tui::ui::tabs::Artists;
use rmusic_tui::ui::tabs::ListKey;
use rmusic_tui::ui::tabs::QueueView;
use rmusic_tui::ui::tabs::TabKey;
use rmusic_tui::ui::tabs::TabPage;
use rmusic_tui::ui::tabs::TabPages;
use tui_logger::TuiWidgetEvent;
use tui_logger::TuiWidgetState;

fn pages() -> TabPages {
    TabPages::new(vec![
        TabPage::LibraryView(LibraryViewer::new()),
        TabPage::FileExplorer(FileExplorer::new(
            Directory { path: "/".to_string(), parents: vec![] },
            vec![],
        )),
        TabPage::Queue(QueueView::new()),
        TabPage::TuiLogger(TuiWidgetState::new()),
    ])
}

#[test]
fn tab_names_are_those_of_the_tab_bar() {
    let mut tabs = pages();
    assert_eq!(tabs.tab_names(), vec!["LibraryView", "Files", "Queue", "TuiLogger"]);
    tabs.add_tab(TabPage::Artists(Artists::new()));
    assert_eq!(tabs.len(), 5);
    assert_eq!(tabs.tab_names()[4], "Artist");
    assert_eq!(tabs.active_tab().tab_name(), "LibraryView");
    assert_eq!(tabs.active_tab_mut().tab_name(), "LibraryView");
    assert!(!tabs.active_tab().reads_database());
    assert!(TabPage::Artists(Artists::new()).reads_database());
}

#[test]
fn tab_keys_go_around_the_tab_bar() {
    let mut tabs = pages();
    assert_eq!(tabs.active_tab_index(), 0);
    assert!(tabs.handle_key(TabKey::Previous));
    assert_eq!(tabs.active_tab_index(), 3);
    assert!(tabs.handle_key(TabKey::Next));
    assert_eq!(tabs.active_tab_index(), 0);
    assert!(tabs.handle_key(TabKey::Next));
    assert!(tabs.handle_key(TabKey::Next));
    assert_eq!(tabs.active_tab_index(), 2);
    assert_eq!(tabs.active_tab().tab_name(), "Queue");
    assert!(tabs.handle_key(TabKey::Previous));
    assert_eq!(tabs.active_tab_index(), 1);
    assert!(!tabs.handle_key(TabKey::Other));
    assert_eq!(tabs.active_tab_index(), 1);
}

#[test]
fn tab_inputs_are_read_from_the_bindings() {
    let navigation = Navigation::default();
    let mut tabs = pages();
    assert!(tabs.handle_input(&Input::new_key(Key::Tab), &navigation));
    assert_eq!(tabs.active_tab_index(), 1);
    assert!(tabs.handle_input(&Input::new_key(Key::BackTab), &navigation));
    assert_eq!(tabs.active_tab_index(), 0);
    assert!(tabs.handle_input(&Input::new(Key::Tab, Modifier::Shift(Side::Left)), &navigation));
    assert_eq!(tabs.active_tab_index(), 3);
    assert!(!tabs.handle_input(&Input::new_key(Key::Char('x')), &navigation));
    assert_eq!(tabs.active_tab_index(), 3);
}

#[test]
fn single_tab_stays_active() {
    let mut tabs = TabPages::new(vec![TabPage::Queue(QueueView::new())]);
    assert!(tabs.handle_key(TabKey::Next));
    assert_eq!(tabs.active_tab_index(), 0);
    assert!(tabs.handle_key(TabKey::Previous));
    assert_eq!(tabs.active_tab_index(), 0);
}

#[test]
fn queue_view_scrolls_by_one() {
    let navigation = Navigation::default();
    let mut view = QueueView::new();
    assert_eq!(view.selected(), None);
    view.handle_key(ListKey::Other);
    assert_eq!(view.selected(), None);
    view.handle_key(ListKey::Up);
    assert_eq!(view.selected(), Some(0));
    view.handle_key(ListKey::Down);
    view.handle_key(ListKey::Down);
    assert_eq!(view.selected(), Some(2));
    view.handle_input(&Input::new_key(Key::Char('k')), &navigation);
    assert_eq!(view.selected(), Some(1));
    view.handle_input(&Input::new_key(Key::Down), &navigation);
    assert_eq!(view.selected(), Some(2));
    view.handle_input(&Input::new_key(Key::Enter), &navigation);
    assert_eq!(view.selected(), Some(2));
    view.list_state().select(Some(usize::MAX));
    view.handle_key(ListKey::Down);
    assert_eq!(view.selected(), Some(usize::MAX));
    let mut fresh = QueueView::new();
    fresh.handle_key(ListKey::Down);
    assert_eq!(fresh.selected(), Some(1));
}

#[test]
fn artists_scroll_and_take_the_names() {
    let navigation = Navigation::default();
    let mut artists = Artists::new();
    assert_eq!(artists.list().len(), 0);
    artists.sync_with_database(vec!["Abba".to_string(), "Beck".to_string()]);
    assert_eq!(artists.list(), &vec!["Abba".to_string(), "Beck".to_string()]);
    artists.handle_input(&Input::new_key(Key::Char('j')), &navigation);
    assert_eq!(artists.list_state().selected(), Some(1));
    artists.handle_key(ListKey::Up);
    artists.handle_key(ListKey::Up);
    assert_eq!(artists.list_state().selected(), Some(0));
    assert_eq!(artists.list().len(), 2);
}

#[test]
fn queue_items_are_shown_by_path_or_kind() {
    assert_eq!(show_queue_item(&QueueItem::Track("/music/a.opus".to_string())), "/music/a.opus");
    assert_eq!(show_queue_item(&QueueItem::PlayList(vec![], false)), "Playlist");
    assert_eq!(show_queue_item(&QueueItem::Album(vec!["x".to_string()], true)), "Album");
}

#[test]
fn log_events_come_from_the_list_keys_first() {
    let navigation = Navigation::default();
    let event = |key: Key| input_to_log_event(&Input::new_key(key), &navigation);
    assert_eq!(event(Key::Down), Some(TuiWidgetEvent::DownKey));
    assert_eq!(event(Key::Char('j')), Some(TuiWidgetEvent::DownKey));
    assert_eq!(event(Key::Up), Some(TuiWidgetEvent::UpKey));
    assert_eq!(event(Key::Left), Some(TuiWidgetEvent::LeftKey));
    assert_eq!(event(Key::Char('h')), Some(TuiWidgetEvent::LeftKey));
    assert_eq!(event(Key::Right), Some(TuiWidgetEvent::RightKey));
    assert_eq!(event(Key::Enter), Some(TuiWidgetEvent::RightKey));
    assert_eq!(event(Key::Char('f')), Some(TuiWidgetEvent::FocusKey));
    assert_eq!(event(Key::PageUp), Some(TuiWidgetEvent::PrevPageKey));
    assert_eq!(event(Key::PageDown), Some(TuiWidgetEvent::NextPageKey));
    assert_eq!(event(Key::Char('x')), None);
    assert_eq!(event(Key::Esc), None);
    assert_eq!(
        input_to_log_event(&Input::new(Key::Char('f'), Modifier::Shift(Side::Left)), &navigation),
        None
    );
}

#[test]
fn log_view_hides_on_h_where_h_is_not_bound_to_back() {
    let mut navigation = Navigation::default();
    navigation.list_back = vec![Input::new_key(Key::Left)];
    assert_eq!(
        input_to_log_event(&Input::new_key(Key::Char('h')), &navigation),
        Some(TuiWidgetEvent::HideKey)
    );
    assert_eq!(
        input_to_log_event(&Input::new(Key::Any, Modifier::None), &navigation),
        Some(TuiWidgetEvent::DownKey)
    );
}

#[test]
fn only_a_tab_of_artists_takes_the_artists() {
    let mut tabs = TabPages::new(vec![TabPage::Queue(QueueView::new()), TabPage::Artists(Artists::new())]);
    tabs.sync_with_database(vec!["Abba".to_string()]);
    assert_eq!(tabs.active_tab().tab_name(), "Queue");
    tabs.handle_key(TabKey::Next);
    tabs.sync_with_database(vec!["Abba".to_string(), "Beck".to_string()]);
    match tabs.active_tab() {
        TabPage::Artists(artists) => assert_eq!(artists.list().len(), 2),
        _ => panic!("the artists are not up"),
    }
    let mut page = TabPage::Queue(QueueView::new());
    page.sync_with_database(vec!["Abba".to_string()]);
    assert_eq!(page.tab_name(), "Queue");
}
