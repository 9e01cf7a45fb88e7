//! The tabs of the screen, and the plain lists among them.
use crate::queue::QueueItem;
use crate::settings::input::input_eq;
use crate::settings::input::inputs_match;
use crate::settings::input::is_bound;
use crate::settings::input::plain;
use crate::settings::input::pressed;
use crate::settings::input::Navigation;
use crate::ui::explorer::file_explorer::FileExplorer;
use crate::ui::library_view::LibraryViewer;
use ratatui::widgets::ListState;
use ratatui_eventInput::Input;
use ratatui_eventInput::Key;
use tui_logger::TuiWidgetEvent;
use tui_logger::TuiWidgetState;
use vstd::prelude::*;

verus! {

/// `ratatui::widgets::ListState`: what a list has selected, and from where
/// it is drawn. Nothing of its inside is known here.
#[verifier::external_type_specification]
#[verifier::external_body]
pub struct ExListState(ListState);

/// `tui_logger::TuiWidgetState`: the state of a log view. Nothing of its
/// inside is known here.
#[verifier::external_type_specification]
#[verifier::external_body]
pub struct ExTuiWidgetState(TuiWidgetState);

/// `tui_logger::TuiWidgetEvent`, with the variants that the crate gives it.
#[verifier::external_type_specification]
pub struct ExTuiWidgetEvent(TuiWidgetEvent);

/// The item that a list state has selected.
pub uninterp spec fn list_selected(state: ListState) -> Option<usize>;

/// `ListState::default`: a state with no item selected.
pub assume_specification[ <ListState as Default>::default ]() -> (state: ListState)
    ensures
        list_selected(state) is None,
;

/// `ListState::selected`: the selected item.
pub assume_specification[ ListState::selected ](state: &ListState) -> (selected: Option<usize>)
    ensures
        selected == list_selected(*state),
;

/// `ListState::scroll_down_by`: the selection moves `amount` items down from
/// where it is, or from the first item where nothing is selected, and stops
/// at the largest number there is.
pub assume_specification[ ListState::scroll_down_by ](state: &mut ListState, amount: u16)
    ensures
        list_selected(*final(state)) == Some(
            scrolled_down(list_selected(*old(state)), amount),
        ),
;

/// `ListState::scroll_up_by`: the selection moves `amount` items up from
/// where it is, and stops at the first item.
pub assume_specification[ ListState::scroll_up_by ](state: &mut ListState, amount: u16)
    ensures
        list_selected(*final(state)) == Some(scrolled_up(list_selected(*old(state)), amount)),
;

/// `TuiWidgetState::transition`: the log view takes the event. Nothing is
/// claimed of what it does with it.
pub assume_specification[ TuiWidgetState::transition ](state: &TuiWidgetState, event: TuiWidgetEvent)
;

/// The item `amount` below the selected one.
pub open spec fn scrolled_down(selected: Option<usize>, amount: u16) -> usize {
    let from: usize = match selected {
        None => 0,
        Some(item) => item,
    };
    if from + amount > usize::MAX {
        usize::MAX
    } else {
        (from + amount) as usize
    }
}

/// The item `amount` above the selected one.
pub open spec fn scrolled_up(selected: Option<usize>, amount: u16) -> usize {
    let from: usize = match selected {
        None => 0,
        Some(item) => item,
    };
    if from < amount {
        0
    } else {
        (from - amount) as usize
    }
}

/// What a key means to a plain list.
#[derive(Clone, Copy, Debug, PartialEq, Eq, Structural)]
pub enum ListKey {
    Down,
    Up,
    Other,
}

/// What `input` means to a plain list under `input_map`; where it is bound
/// to both, down counts.
pub open spec fn list_key(input_map: Navigation, input: Input) -> ListKey {
    if is_bound(input_map.list_down@, input) {
        ListKey::Down
    } else if is_bound(input_map.list_up@, input) {
        ListKey::Up
    } else {
        ListKey::Other
    }
}

/// The selection of a plain list after a key: one item down or up.
pub open spec fn list_after_key(selected: Option<usize>, key: ListKey) -> Option<usize> {
    match key {
        ListKey::Down => Some(scrolled_down(selected, 1)),
        ListKey::Up => Some(scrolled_up(selected, 1)),
        ListKey::Other => selected,
    }
}

/// What `input` means to a plain list under `input_map`.
pub fn read_list_key(input: &Input, input_map: &Navigation) -> (key: ListKey)
    ensures
        key == list_key(*input_map, *input),
{
    if pressed(&input_map.list_down, input) {
        ListKey::Down
    } else if pressed(&input_map.list_up, input) {
        ListKey::Up
    } else {
        ListKey::Other
    }
}

fn scroll(list_state: &mut ListState, key: ListKey)
    ensures
        list_selected(*final(list_state)) == list_after_key(list_selected(*old(list_state)), key),
{
    match key {
        ListKey::Down => list_state.scroll_down_by(1),
        ListKey::Up => list_state.scroll_up_by(1),
        ListKey::Other => {},
    }
}

/// The tab that shows the queue.
pub struct QueueView {
    list_state: ListState,
}

impl QueueView {
    /// The item that is selected.
    pub closed spec fn selected_item(&self) -> Option<usize> {
        list_selected(self.list_state)
    }

    /// A view with nothing selected.
    pub fn new() -> (view: QueueView)
        ensures
            view.selected_item() is None,
    {
        QueueView { list_state: ListState::default() }
    }

    /// The item that is selected.
    pub fn selected(&self) -> (selected: Option<usize>)
        ensures
            selected == self.selected_item(),
    {
        self.list_state.selected()
    }

    /// The state of the list that shows the queue.
    pub fn list_state(&mut self) -> (state: &mut ListState)
        ensures
            list_selected(*state) == old(self).selected_item(),
            final(self).selected_item() == list_selected(*final(state)),
    {
        &mut self.list_state
    }

    /// Takes a key: the selection moves one item down or up.
    pub fn handle_key(&mut self, key: ListKey)
        ensures
            final(self).selected_item() == list_after_key(old(self).selected_item(), key),
    {
        scroll(&mut self.list_state, key);
    }

    /// Takes an input: see `handle_key`.
    pub fn handle_input(&mut self, input: &Input, input_map: &Navigation)
        ensures
            final(self).selected_item() == list_after_key(
                old(self).selected_item(),
                list_key(*input_map, *input),
            ),
    {
        let key = read_list_key(input, input_map);
        self.handle_key(key);
    }
}

/// What the queue's tab shows of an item: a track's path, and the kind of
/// anything else.
pub open spec fn queue_item_label(item: QueueItem) -> Seq<char> {
    match item {
        QueueItem::Track(path) => path@,
        QueueItem::PlayList(_, _) => "Playlist"@,
        QueueItem::Album(_, _) => "Album"@,
    }
}

/// What the queue's tab shows of an item.
pub fn show_queue_item(item: &QueueItem) -> (label: &str)
    ensures
        label@ == queue_item_label(*item),
{
    match item {
        QueueItem::Track(path_buf) => path_buf.as_str(),
        QueueItem::PlayList(_, _) => "Playlist",
        QueueItem::Album(_, _) => "Album",
    }
}

/// The tab that lists the artists.
pub struct Artists {
    list_state: ListState,
    list: Vec<String>,
}

impl Artists {
    /// The item that is selected.
    pub closed spec fn selected_item(&self) -> Option<usize> {
        list_selected(self.list_state)
    }

    /// The names that are listed.
    pub closed spec fn names(&self) -> Seq<String> {
        self.list@
    }

    /// A tab without artists and with nothing selected.
    pub fn new() -> (artists: Artists)
        ensures
            artists.selected_item() is None,
            artists.names().len() == 0,
    {
        Artists { list_state: ListState::default(), list: Vec::new() }
    }

    /// The names that are listed.
    pub fn list(&self) -> (list: &Vec<String>)
        ensures
            list@ == self.names(),
    {
        &self.list
    }

    /// The state of the list that shows the artists.
    pub fn list_state(&mut self) -> (state: &mut ListState)
        ensures
            list_selected(*state) == old(self).selected_item(),
            final(self).selected_item() == list_selected(*final(state)),
            final(self).names() == old(self).names(),
    {
        &mut self.list_state
    }

    /// Takes a key: the selection moves one item down or up.
    pub fn handle_key(&mut self, key: ListKey)
        ensures
            final(self).selected_item() == list_after_key(old(self).selected_item(), key),
            final(self).names() == old(self).names(),
    {
        scroll(&mut self.list_state, key);
    }

    /// Takes an input: see `handle_key`.
    pub fn handle_input(&mut self, input: &Input, input_map: &Navigation)
        ensures
            final(self).selected_item() == list_after_key(
                old(self).selected_item(),
                list_key(*input_map, *input),
            ),
            final(self).names() == old(self).names(),
    {
        let key = read_list_key(input, input_map);
        self.handle_key(key);
    }

    /// Takes in the names of the artists as they were read.
    pub fn sync_with_database(&mut self, names: Vec<String>)
        ensures
            final(self).names() == names@,
            final(self).selected_item() == old(self).selected_item(),
    {
        self.list = names;
    }
}

/// What `input` is to the log view under `input_map`: the list keys first,
/// down before up before back before select; then `h` hides, `f` focuses,
/// and the page keys turn pages.
pub open spec fn log_event(input_map: Navigation, input: Input) -> Option<TuiWidgetEvent> {
    if is_bound(input_map.list_down@, input) {
        Some(TuiWidgetEvent::DownKey)
    } else if is_bound(input_map.list_up@, input) {
        Some(TuiWidgetEvent::UpKey)
    } else if is_bound(input_map.list_back@, input) {
        Some(TuiWidgetEvent::LeftKey)
    } else if is_bound(input_map.list_select@, input) {
        Some(TuiWidgetEvent::RightKey)
    } else if inputs_match(input, plain(Key::Char('h'))) {
        Some(TuiWidgetEvent::HideKey)
    } else if inputs_match(input, plain(Key::Char('f'))) {
        Some(TuiWidgetEvent::FocusKey)
    } else if inputs_match(input, plain(Key::PageUp)) {
        Some(TuiWidgetEvent::PrevPageKey)
    } else if inputs_match(input, plain(Key::PageDown)) {
        Some(TuiWidgetEvent::NextPageKey)
    } else {
        None
    }
}

/// What `input` is to the log view under `input_map`.
pub fn input_to_log_event(input: &Input, input_map: &Navigation) -> (event: Option<TuiWidgetEvent>)
    ensures
        event == log_event(*input_map, *input),
{
    if pressed(&input_map.list_down, input) {
        Some(TuiWidgetEvent::DownKey)
    } else if pressed(&input_map.list_up, input) {
        Some(TuiWidgetEvent::UpKey)
    } else if pressed(&input_map.list_back, input) {
        Some(TuiWidgetEvent::LeftKey)
    } else if pressed(&input_map.list_select, input) {
        Some(TuiWidgetEvent::RightKey)
    } else if input_eq(input, &Input::new_key(Key::Char('h'))) {
        Some(TuiWidgetEvent::HideKey)
    } else if input_eq(input, &Input::new_key(Key::Char('f'))) {
        Some(TuiWidgetEvent::FocusKey)
    } else if input_eq(input, &Input::new_key(Key::PageUp)) {
        Some(TuiWidgetEvent::PrevPageKey)
    } else if input_eq(input, &Input::new_key(Key::PageDown)) {
        Some(TuiWidgetEvent::NextPageKey)
    } else {
        None
    }
}

/// One tab of the screen.
pub enum TabPage {
    Artists(Artists),
    FileExplorer(FileExplorer),
    LibraryView(LibraryViewer),
    TuiLogger(TuiWidgetState),
    Queue(QueueView),
}

/// The name that the tab bar shows for a tab.
pub open spec fn tab_label(page: TabPage) -> Seq<char> {
    match page {
        TabPage::Artists(_) => "Artist"@,
        TabPage::FileExplorer(_) => "Files"@,
        TabPage::LibraryView(_) => "LibraryView"@,
        TabPage::TuiLogger(_) => "TuiLogger"@,
        TabPage::Queue(_) => "Queue"@,
    }
}

impl TabPage {
    /// The name that the tab bar shows.
    pub fn tab_name(&self) -> (name: &'static str)
        ensures
            name@ == tab_label(*self),
    {
        match self {
            TabPage::Artists(_) => "Artist",
            TabPage::FileExplorer(_) => "Files",
            TabPage::LibraryView(_) => "LibraryView",
            TabPage::TuiLogger(_) => "TuiLogger",
            TabPage::Queue(_) => "Queue",
        }
    }

    /// Hands the tab the names of the artists as they were read; only a tab
    /// of artists takes them.
    pub fn sync_with_database(&mut self, names: Vec<String>)
        ensures
            match *old(self) {
                TabPage::Artists(artists) => *final(self) matches TabPage::Artists(then)
                    && then.names() == names@ && then.selected_item() == artists.selected_item(),
                _ => *final(self) == *old(self),
            },
    {
        match self {
            TabPage::Artists(artists) => artists.sync_with_database(names),
            _ => {},
        }
    }

    /// Whether the tab shows what the database holds, and is to be handed
    /// it anew each time it comes up.
    pub fn reads_database(&self) -> (reads: bool)
        ensures
            reads == (*self is Artists),
    {
        matches!(self, TabPage::Artists(_))
    }
}

/// What a key means to the tab bar.
#[derive(Clone, Copy, Debug, PartialEq, Eq, Structural)]
pub enum TabKey {
    Next,
    Previous,
    Other,
}

/// What `input` means to the tab bar under `input_map`; where it is bound to
/// both, next counts.
pub open spec fn tab_key(input_map: Navigation, input: Input) -> TabKey {
    if is_bound(input_map.tab_next@, input) {
        TabKey::Next
    } else if is_bound(input_map.tab_previus@, input) {
        TabKey::Previous
    } else {
        TabKey::Other
    }
}

/// What `input` means to the tab bar under `input_map`.
pub fn read_tab_key(input: &Input, input_map: &Navigation) -> (key: TabKey)
    ensures
        key == tab_key(*input_map, *input),
{
    if pressed(&input_map.tab_next, input) {
        TabKey::Next
    } else if pressed(&input_map.tab_previus, input) {
        TabKey::Previous
    } else {
        TabKey::Other
    }
}

/// The tab that is active after a key, among `count` tabs: the next one, and
/// after the last the first; or the one before, and before the first the
/// last.
pub open spec fn tab_after_key(active: nat, count: nat, key: TabKey) -> nat {
    match key {
        TabKey::Next => if active + 1 >= count {
            0
        } else {
            active + 1
        },
        TabKey::Previous => if active == 0 {
            (count - 1) as nat
        } else {
            (active - 1) as nat
        },
        TabKey::Other => active,
    }
}

/// The tabs, one of them active.
pub struct TabPages {
    tab_pages: Vec<TabPage>,
    active_tab_index: usize,
}

impl TabPages {
    /// The tabs, in the order of the tab bar.
    pub closed spec fn pages(&self) -> Seq<TabPage> {
        self.tab_pages@
    }

    /// The place of the active tab.
    pub closed spec fn active(&self) -> nat {
        self.active_tab_index as nat
    }

    /// The invariant: there is an active tab.
    pub open spec fn wf(&self) -> bool {
        self.active() < self.pages().len()
    }

    /// The tabs `tab_pages`, the first of them active.
    pub fn new(tab_pages: Vec<TabPage>) -> (tabs: TabPages)
        requires
            tab_pages.len() > 0,
        ensures
            tabs.wf(),
            tabs.pages() == tab_pages@,
            tabs.active() == 0,
    {
        TabPages { tab_pages, active_tab_index: 0 }
    }

    /// The active tab, to change.
    pub fn active_tab_mut(&mut self) -> (page: &mut TabPage)
        requires
            old(self).wf(),
        ensures
            *page == old(self).pages()[old(self).active() as int],
            final(self).pages() == old(self).pages().update(
                old(self).active() as int,
                *final(page),
            ),
            final(self).active() == old(self).active(),
    {
        &mut self.tab_pages[self.active_tab_index]
    }

    /// Hands the active tab the names of the artists as they were read.
    pub fn sync_with_database(&mut self, names: Vec<String>)
        requires
            old(self).wf(),
        ensures
            final(self).wf(),
            final(self).active() == old(self).active(),
            final(self).pages() == old(self).pages().update(
                old(self).active() as int,
                final(self).pages()[old(self).active() as int],
            ),
            match old(self).pages()[old(self).active() as int] {
                TabPage::Artists(artists) => final(self).pages()[old(self).active() as int] matches TabPage::Artists(
                    then,
                ) && then.names() == names@ && then.selected_item() == artists.selected_item(),
                page => final(self).pages()[old(self).active() as int] == page,
            },
    {
        self.tab_pages[self.active_tab_index].sync_with_database(names);
    }

    /// Adds a tab at the end of the tab bar.
    pub fn add_tab(&mut self, tab_page: TabPage)
        ensures
            final(self).pages() == old(self).pages().push(tab_page),
            final(self).active() == old(self).active(),
    {
        self.tab_pages.push(tab_page);
    }

    /// The active tab.
    pub fn active_tab(&self) -> (page: &TabPage)
        requires
            self.wf(),
        ensures
            *page == self.pages()[self.active() as int],
    {
        &self.tab_pages[self.active_tab_index]
    }

    /// The place of the active tab.
    pub fn active_tab_index(&self) -> (index: usize)
        ensures
            index == self.active(),
    {
        self.active_tab_index
    }

    /// The number of tabs.
    pub fn len(&self) -> (count: usize)
        ensures
            count == self.pages().len(),
    {
        self.tab_pages.len()
    }

    /// The names of the tabs, in the order of the tab bar.
    pub fn tab_names(&self) -> (names: Vec<&'static str>)
        ensures
            names.len() == self.pages().len(),
            forall|i: int| 0 <= i < names.len() ==> names[i]@ == tab_label(#[trigger] self.pages()[i]),
    {
        let mut names: Vec<&'static str> = Vec::new();
        let mut i: usize = 0;
        while i < self.tab_pages.len()
            invariant
                i <= self.tab_pages.len(),
                names.len() == i,
                forall|k: int| 0 <= k < i ==> names[k]@ == tab_label(#[trigger] self.tab_pages@[k]),
            decreases self.tab_pages.len() - i,
        {
            names.push(self.tab_pages[i].tab_name());
            i += 1;
        }
        names
    }

    /// Takes a key: goes to the next tab or the one before, and says whether
    /// it took the key.
    pub fn handle_key(&mut self, key: TabKey) -> (taken: bool)
        requires
            old(self).wf(),
        ensures
            final(self).wf(),
            final(self).pages() == old(self).pages(),
            final(self).active() == tab_after_key(old(self).active(), old(self).pages().len(), key),
            taken == (key != TabKey::Other),
    {
        match key {
            TabKey::Next => {
                let count = self.tab_pages.len();
                self.active_tab_index = if self.active_tab_index >= count - 1 {
                    0
                } else {
                    self.active_tab_index + 1
                };
                true
            },
            TabKey::Previous => {
                self.active_tab_index = if self.active_tab_index == 0 {
                    self.tab_pages.len() - 1
                } else {
                    self.active_tab_index - 1
                };
                true
            },
            TabKey::Other => false,
        }
    }

    /// Takes an input: see `handle_key`.
    pub fn handle_input(&mut self, input: &Input, input_map: &Navigation) -> (taken: bool)
        requires
            old(self).wf(),
        ensures
            final(self).wf(),
            final(self).pages() == old(self).pages(),
            final(self).active() == tab_after_key(
                old(self).active(),
                old(self).pages().len(),
                tab_key(*input_map, *input),
            ),
            taken == (tab_key(*input_map, *input) != TabKey::Other),
    {
        let key = read_tab_key(input, input_map);
        self.handle_key(key)
    }
}

/// Going to the next tab as often as there are tabs leads back to the tab one
/// started from, and going back undoes going on.
pub proof fn lemma_tabs_wrap(active: nat, count: nat)
    requires
        active < count,
    ensures
        tab_after_key(active, count, TabKey::Next) < count,
        tab_after_key(active, count, TabKey::Previous) < count,
        tab_after_key(tab_after_key(active, count, TabKey::Next), count, TabKey::Previous)
            == active,
        tab_after_key(tab_after_key(active, count, TabKey::Previous), count, TabKey::Next)
            == active,
{
}

} // verus!
