use ratatui_eventInput::Input;
use ratatui_eventInput::Key;
use rmusic_tui::queue::QueueItem;
use rmusic_tui::settings::input::Navigation;
use rmusic_tui::ui::library_view::read_library_key;
use rmusic_tui::ui::library_view::Action;
use rmusic_tui::ui::library_view::ActiveList;
use rmusic_tui::ui::library_view::LibraryKey;
use rmusic_tui::ui::library_view::LibraryRequest;
use rmusic_tui::ui::library_view::LibraryViewer;
use rmusic_tui::ui::library_view::Selection;

#[test]
fn new_viewer_selects_the_first_row_of_the_first_list() {
    let viewer = LibraryViewer::new();
    assert_eq!(viewer.selected(), (Some(0), None, None));
    assert_eq!(viewer.active_list(), ActiveList::Level1);
}

#[test]
fn library_keys_are_read_in_their_order() {
    let navigation = Navigation::default();
    let key = |key: Key| read_library_key(&Input::new_key(key), &navigation);
    assert_eq!(key(Key::Down), LibraryKey::Down);
    assert_eq!(key(Key::Char('j')), LibraryKey::Down);
    assert_eq!(key(Key::Up), LibraryKey::Up);
    assert_eq!(key(Key::Enter), LibraryKey::Select);
    assert_eq!(key(Key::Left), LibraryKey::Back);
    assert_eq!(key(Key::Char('p')), LibraryKey::ItemSet);
    assert_eq!(key(Key::Char('a')), LibraryKey::ItemAdd);
    assert_eq!(key(Key::Char('R')), LibraryKey::Refresh);
    assert_eq!(key(Key::Char('x')), LibraryKey::Other);
    let mut overlapping = Navigation::default();
    overlapping.list_up = vec![Input::new_key(Key::Down)];
    assert_eq!(
        read_library_key(&Input::new_key(Key::Down), &overlapping),
        LibraryKey::Down
    );
}

#[test]
fn scrolling_wraps_around_the_active_list() {
    let mut viewer = LibraryViewer::new();
    viewer.scroll_up(4);
    assert_eq!(viewer.selected(), (Some(3), None, None));
    viewer.scroll_down(4);
    assert_eq!(viewer.selected(), (Some(0), None, None));
    viewer.scroll_down(4);
    viewer.scroll_down(4);
    assert_eq!(viewer.selected(), (Some(2), None, None));
    viewer.scroll_up(4);
    assert_eq!(viewer.selected(), (Some(1), None, None));
    viewer.scroll_down(1);
    assert_eq!(viewer.selected(), (Some(0), None, None));
    viewer.scroll_up(0);
    assert_eq!(viewer.selected(), (Some(0), None, None));
    viewer.scroll_down(0);
    assert_eq!(viewer.selected(), (Some(0), None, None));
}

#[test]
fn select_and_back_move_between_the_lists() {
    let mut viewer = LibraryViewer::new();
    assert_eq!(viewer.handle_key(LibraryKey::Back, 3), LibraryRequest::Nothing);
    assert_eq!(viewer.active_list(), ActiveList::Level1);
    assert_eq!(viewer.handle_key(LibraryKey::Select, 3), LibraryRequest::Nothing);
    assert_eq!(viewer.active_list(), ActiveList::Level2);
    assert_eq!(viewer.handle_key(LibraryKey::Down, 3), LibraryRequest::Nothing);
    assert_eq!(viewer.selected(), (Some(0), Some(1), None));
    assert_eq!(viewer.handle_key(LibraryKey::Select, 3), LibraryRequest::Nothing);
    assert_eq!(viewer.active_list(), ActiveList::Level3);
    assert_eq!(viewer.handle_key(LibraryKey::Up, 5), LibraryRequest::Nothing);
    assert_eq!(viewer.selected(), (Some(0), Some(1), Some(4)));
    assert_eq!(viewer.handle_key(LibraryKey::Select, 5), LibraryRequest::PlayFrom(0, 1, 4));
    assert_eq!(viewer.active_list(), ActiveList::Level3);
    assert_eq!(viewer.handle_key(LibraryKey::Back, 5), LibraryRequest::Nothing);
    assert_eq!(viewer.active_list(), ActiveList::Level2);
    assert_eq!(viewer.handle_key(LibraryKey::Back, 5), LibraryRequest::Nothing);
    assert_eq!(viewer.active_list(), ActiveList::Level1);
}

#[test]
fn item_keys_ask_for_what_is_selected_and_select_first_rows() {
    let mut viewer = LibraryViewer::new();
    assert_eq!(
        viewer.handle_key(LibraryKey::ItemSet, 3),
        LibraryRequest::Play(Selection::Level1(0))
    );
    assert_eq!(viewer.selected(), (Some(0), None, None));
    viewer.handle_key(LibraryKey::Down, 3);
    viewer.handle_key(LibraryKey::Select, 3);
    assert_eq!(
        viewer.handle_key(LibraryKey::ItemAdd, 3),
        LibraryRequest::Queue(Selection::Level2(1, 0))
    );
    assert_eq!(viewer.selected(), (Some(1), Some(0), None));
    viewer.handle_key(LibraryKey::Select, 3);
    assert_eq!(
        viewer.handle_key(LibraryKey::ItemSet, 3),
        LibraryRequest::Play(Selection::Level3(1, 0, 0))
    );
    assert_eq!(viewer.selected(), (Some(1), Some(0), Some(0)));
    assert_eq!(viewer.handle_key(LibraryKey::Refresh, 3), LibraryRequest::Resync);
    assert_eq!(viewer.handle_key(LibraryKey::Other, 3), LibraryRequest::Nothing);
    assert_eq!(viewer.selected(), (Some(1), Some(0), Some(0)));
}

#[test]
fn handle_input_reads_the_key_and_handles_it() {
    let navigation = Navigation::default();
    let mut viewer = LibraryViewer::new();
    let request = viewer.handle_input(&Input::new_key(Key::Char('j')), &navigation, 3);
    assert_eq!(request, LibraryRequest::Nothing);
    assert_eq!(viewer.selected(), (Some(1), None, None));
    let request = viewer.handle_input(&Input::new_key(Key::Char('p')), &navigation, 3);
    assert_eq!(request, LibraryRequest::Play(Selection::Level1(1)));
}

#[test]
fn index_functions_select_the_first_row_where_none_is_selected() {
    let mut viewer = LibraryViewer::new();
    assert_eq!(viewer.index_l1(), 0);
    assert_eq!(viewer.selected(), (Some(0), None, None));
    assert_eq!(viewer.index_l2(), (0, 0));
    assert_eq!(viewer.selected(), (Some(0), Some(0), None));
    assert_eq!(viewer.index_l3(), (0, 0, 0));
    assert_eq!(viewer.selected(), (Some(0), Some(0), Some(0)));
    viewer.scroll_down(3);
    assert_eq!(viewer.index_l3(), (1, 0, 0));
    assert_eq!(viewer.get_context(), Selection::Level1(1));
}

#[test]
fn table_states_carry_the_selection() {
    let mut viewer = LibraryViewer::new();
    viewer.table_state_l2().select(Some(7));
    viewer.table_state_l3().select(Some(9));
    viewer.table_state_l1().select(None);
    assert_eq!(viewer.selected(), (None, Some(7), Some(9)));
    assert_eq!(viewer.index_l3(), (0, 7, 9));
    assert_eq!(viewer.selected(), (Some(0), Some(7), Some(9)));
}

#[test]
fn sync_brings_the_selection_in_line_with_the_lists() {
    let mut viewer = LibraryViewer::new();
    assert_eq!(viewer.sync_l1(0), None);
    assert_eq!(viewer.selected(), (Some(0), None, None));
    assert_eq!(viewer.sync_l1(3), Some(0));
    viewer.table_state_l1().select(Some(9));
    assert_eq!(viewer.sync_l1(3), Some(2));
    assert_eq!(viewer.selected().0, Some(9));
    viewer.table_state_l1().select(None);
    assert_eq!(viewer.sync_l1(3), Some(0));
    assert_eq!(viewer.selected().0, Some(0));

    assert_eq!(viewer.sync_l2(4), Some(0));
    assert_eq!(viewer.selected().1, Some(0));
    viewer.table_state_l2().select(Some(4));
    assert_eq!(viewer.sync_l2(4), Some(3));
    viewer.handle_key(LibraryKey::Select, 3);
    viewer.handle_key(LibraryKey::Select, 3);
    assert_eq!(viewer.active_list(), ActiveList::Level3);
    viewer.sync_l3(0);
    assert_eq!(viewer.active_list(), ActiveList::Level2);
    assert_eq!(viewer.selected().2, None);
    viewer.sync_l3(2);
    assert_eq!(viewer.selected().2, Some(0));
    assert_eq!(viewer.active_list(), ActiveList::Level2);
    viewer.sync_l3(0);
    assert_eq!(viewer.selected().2, Some(0));
    assert_eq!(viewer.sync_l2(0), None);
    assert_eq!(viewer.active_list(), ActiveList::Level1);
}

#[test]
fn action_comes_of_the_request_and_the_item() {
    let item = QueueItem::Album(vec!["a".to_string()], true);
    let single = QueueItem::Track("t".to_string());
    assert_eq!(
        Action::for_request(LibraryRequest::Play(Selection::Level1(0)), Some(item.clone())),
        Action::Play(item.clone())
    );
    assert_eq!(
        Action::for_request(LibraryRequest::PlayFrom(0, 0, 0), Some(single.clone())),
        Action::Play(single.clone())
    );
    assert_eq!(
        Action::for_request(LibraryRequest::Queue(Selection::Level1(0)), Some(item.clone())),
        Action::Queue(item.clone(), true)
    );
    assert_eq!(
        Action::for_request(LibraryRequest::Queue(Selection::Level1(0)), Some(single.clone())),
        Action::Queue(single, false)
    );
    assert_eq!(
        Action::for_request(LibraryRequest::Play(Selection::Level1(0)), None),
        Action::Nothing
    );
    assert_eq!(Action::for_request(LibraryRequest::Resync, Some(item.clone())), Action::Nothing);
    assert_eq!(Action::for_request(LibraryRequest::Nothing, Some(item)), Action::Nothing);
}
