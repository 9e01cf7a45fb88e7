//! The library browser: three lists side by side, each the contents of what
//! is selected in the list to its left.
//!
//! The lists themselves are the caller's: it says how long they are, and is
//! told what to look up.
use crate::queue::QueueItem;
use crate::settings::input::is_bound;
use crate::settings::input::pressed;
use crate::settings::input::Navigation;
use ratatui::widgets::TableState;
use ratatui_eventInput::Input;
use vstd::prelude::*;

verus! {

/// `ratatui::widgets::TableState`: what a table has selected, and from
/// where it is drawn. Nothing of its inside is known here.
#[verifier::external_type_specification]
#[verifier::external_body]
pub struct ExTableState(TableState);

/// The row that a table state has selected.
pub uninterp spec fn table_selected(state: TableState) -> Option<usize>;

/// `TableState::new`: a state with no row selected.
pub assume_specification[ TableState::new ]() -> (state: TableState)
    ensures
        table_selected(state) is None,
;

/// `TableState::selected`: the selected row.
pub assume_specification[ TableState::selected ](state: &TableState) -> (selected: Option<usize>)
    ensures
        selected == table_selected(*state),
;

/// `TableState::select`: `index` becomes the selected row.
pub assume_specification[ TableState::select ](state: &mut TableState, index: Option<usize>)
    ensures
        table_selected(*final(state)) == index,
;

/// The list that takes the keys.
#[derive(Clone, Copy, Debug, PartialEq, Eq, Structural)]
pub enum ActiveList {
    Level1,
    Level2,
    Level3,
}

impl ActiveList {
    /// The list to the right; the last list stays.
    pub open spec fn next(self) -> ActiveList {
        match self {
            ActiveList::Level1 => ActiveList::Level2,
            ActiveList::Level2 => ActiveList::Level3,
            ActiveList::Level3 => ActiveList::Level3,
        }
    }

    /// The list to the left; the first list stays.
    pub open spec fn previous(self) -> ActiveList {
        match self {
            ActiveList::Level1 => ActiveList::Level1,
            ActiveList::Level2 => ActiveList::Level1,
            ActiveList::Level3 => ActiveList::Level2,
        }
    }
}

/// What is selected: an item of the first list, one of the second list under
/// it, or one of the third under both.
#[derive(Clone, Copy, Debug, PartialEq, Eq, Structural)]
pub enum Selection {
    Level1(usize),
    Level2(usize, usize),
    Level3(usize, usize, usize),
}

/// What the library browser asks of its caller after a key.
#[derive(Clone, Copy, Debug, PartialEq, Eq, Structural)]
pub enum LibraryRequest {
    Nothing,
    /// Look up the third list from this item on, to play it.
    PlayFrom(usize, usize, usize),
    /// Look up what is selected, to play it.
    Play(Selection),
    /// Look up what is selected, to put it in the queue.
    Queue(Selection),
    /// Read all lists anew.
    Resync,
}

/// What comes of a key in the library browser.
#[derive(Debug, PartialEq)]
pub enum Action {
    Play(QueueItem),
    /// Add to queue, taken apart or not
    Queue(QueueItem, bool),
    Nothing,
}

/// What a key means to the library browser.
#[derive(Clone, Copy, Debug, PartialEq, Eq, Structural)]
pub enum LibraryKey {
    Down,
    Up,
    Select,
    Back,
    /// Play what is selected.
    ItemSet,
    /// Queue what is selected.
    ItemAdd,
    Refresh,
    Other,
}

/// What `input` means to the library browser under `key_map`. Where an input
/// is bound to several of these, the first in this order counts: down, up,
/// select, back, play, queue, refresh.
pub open spec fn library_key(key_map: Navigation, input: Input) -> LibraryKey {
    if is_bound(key_map.list_down@, input) {
        LibraryKey::Down
    } else if is_bound(key_map.list_up@, input) {
        LibraryKey::Up
    } else if is_bound(key_map.list_select@, input) {
        LibraryKey::Select
    } else if is_bound(key_map.list_back@, input) {
        LibraryKey::Back
    } else if is_bound(key_map.item_set@, input) {
        LibraryKey::ItemSet
    } else if is_bound(key_map.item_add@, input) {
        LibraryKey::ItemAdd
    } else if is_bound(key_map.refresh@, input) {
        LibraryKey::Refresh
    } else {
        LibraryKey::Other
    }
}

/// What `input` means to the library browser under `key_map`.
pub fn read_library_key(input: &Input, key_map: &Navigation) -> (key: LibraryKey)
    ensures
        key == library_key(*key_map, *input),
{
    if pressed(&key_map.list_down, input) {
        LibraryKey::Down
    } else if pressed(&key_map.list_up, input) {
        LibraryKey::Up
    } else if pressed(&key_map.list_select, input) {
        LibraryKey::Select
    } else if pressed(&key_map.list_back, input) {
        LibraryKey::Back
    } else if pressed(&key_map.item_set, input) {
        LibraryKey::ItemSet
    } else if pressed(&key_map.item_add, input) {
        LibraryKey::ItemAdd
    } else if pressed(&key_map.refresh, input) {
        LibraryKey::Refresh
    } else {
        LibraryKey::Other
    }
}

/// The row above `current` in a list of `size` rows; above the first row is
/// the last.
pub open spec fn row_above(current: usize, size: usize) -> usize {
    if current == 0 {
        if size == 0 {
            0
        } else {
            (size - 1) as usize
        }
    } else {
        (current - 1) as usize
    }
}

/// The row below `current` in a list of `size` rows; below the last row is
/// the first.
pub open spec fn row_below(current: usize, size: usize) -> usize {
    if size == 0 || current >= size - 1 {
        0
    } else {
        (current + 1) as usize
    }
}

/// The selected row, or the first where none is selected.
pub open spec fn row_or_first(selected: Option<usize>) -> usize {
    match selected {
        None => 0,
        Some(row) => row,
    }
}

/// What a library browser is.
pub struct LibraryState {
    pub selected_l1: Option<usize>,
    pub selected_l2: Option<usize>,
    pub selected_l3: Option<usize>,
    pub active_list: ActiveList,
}

impl LibraryState {
    /// The row selected in the list that takes the keys.
    pub open spec fn active_selected(self) -> Option<usize> {
        match self.active_list {
            ActiveList::Level1 => self.selected_l1,
            ActiveList::Level2 => self.selected_l2,
            ActiveList::Level3 => self.selected_l3,
        }
    }

    /// The browser with `row` selected in the list that takes the keys.
    pub open spec fn with_active_selected(self, row: usize) -> LibraryState {
        match self.active_list {
            ActiveList::Level1 => LibraryState { selected_l1: Some(row), ..self },
            ActiveList::Level2 => LibraryState { selected_l2: Some(row), ..self },
            ActiveList::Level3 => LibraryState { selected_l3: Some(row), ..self },
        }
    }

    /// The browser with a row selected in each list down to `level`: the
    /// first row where none was.
    pub open spec fn with_rows_down_to(self, level: ActiveList) -> LibraryState {
        LibraryState {
            selected_l1: Some(row_or_first(self.selected_l1)),
            selected_l2: if level == ActiveList::Level1 {
                self.selected_l2
            } else {
                Some(row_or_first(self.selected_l2))
            },
            selected_l3: if level == ActiveList::Level3 {
                Some(row_or_first(self.selected_l3))
            } else {
                self.selected_l3
            },
            ..self
        }
    }

    /// What is selected in the list that takes the keys, the first row
    /// standing in where none is selected.
    pub open spec fn selection(self) -> Selection {
        let l1 = row_or_first(self.selected_l1);
        let l2 = row_or_first(self.selected_l2);
        let l3 = row_or_first(self.selected_l3);
        match self.active_list {
            ActiveList::Level1 => Selection::Level1(l1),
            ActiveList::Level2 => Selection::Level2(l1, l2),
            ActiveList::Level3 => Selection::Level3(l1, l2, l3),
        }
    }

    /// The browser after a key, `size` being the length of the list that
    /// takes the keys.
    pub open spec fn after_key(self, key: LibraryKey, size: usize) -> LibraryState {
        match key {
            LibraryKey::Down => self.with_active_selected(
                row_below(row_or_first(self.active_selected()), size),
            ),
            LibraryKey::Up => self.with_active_selected(
                row_above(row_or_first(self.active_selected()), size),
            ),
            LibraryKey::Select => if self.active_list == ActiveList::Level3 {
                self.with_rows_down_to(ActiveList::Level3)
            } else {
                LibraryState { active_list: self.active_list.next(), ..self }
            },
            LibraryKey::Back => LibraryState { active_list: self.active_list.previous(), ..self },
            LibraryKey::ItemSet => self.with_rows_down_to(self.active_list),
            LibraryKey::ItemAdd => self.with_rows_down_to(self.active_list),
            _ => self,
        }
    }

    /// What the browser asks of its caller after a key.
    pub open spec fn request(self, key: LibraryKey) -> LibraryRequest {
        match key {
            LibraryKey::Select => if self.active_list == ActiveList::Level3 {
                LibraryRequest::PlayFrom(
                    row_or_first(self.selected_l1),
                    row_or_first(self.selected_l2),
                    row_or_first(self.selected_l3),
                )
            } else {
                LibraryRequest::Nothing
            },
            LibraryKey::ItemSet => LibraryRequest::Play(self.selection()),
            LibraryKey::ItemAdd => LibraryRequest::Queue(self.selection()),
            LibraryKey::Refresh => LibraryRequest::Resync,
            _ => LibraryRequest::Nothing,
        }
    }
}

impl LibraryState {
    /// The browser after the first list was read and has `len` rows, and the
    /// row of it whose contents are to be read for the second list: none
    /// where the list is empty; else the selected row, or the last where
    /// that lies behind it, or the first, which is then selected, where none
    /// was.
    pub open spec fn synced_l1(self, len: usize) -> (LibraryState, Option<usize>) {
        if len == 0 {
            (self, None)
        } else {
            match self.selected_l1 {
                Some(row) => (
                    self,
                    Some(
                        if row < len {
                            row
                        } else {
                            (len - 1) as usize
                        },
                    ),
                ),
                None => (LibraryState { selected_l1: Some(0), ..self }, Some(0)),
            }
        }
    }

    /// The same for the second list; where it is empty the first list takes
    /// the keys.
    pub open spec fn synced_l2(self, len: usize) -> (LibraryState, Option<usize>) {
        if len == 0 {
            (LibraryState { active_list: ActiveList::Level1, ..self }, None)
        } else {
            match self.selected_l2 {
                Some(row) => (
                    self,
                    Some(
                        if row < len {
                            row
                        } else {
                            (len - 1) as usize
                        },
                    ),
                ),
                None => (LibraryState { selected_l2: Some(0), ..self }, Some(0)),
            }
        }
    }

    /// The browser after the third list was read and has `len` rows: its
    /// first row is selected where none was; where it is empty and took the
    /// keys, the second list takes them.
    pub open spec fn synced_l3(self, len: usize) -> LibraryState {
        if len > 0 && self.selected_l3 is None {
            LibraryState { selected_l3: Some(0), ..self }
        } else if len == 0 && self.active_list == ActiveList::Level3 {
            LibraryState { active_list: ActiveList::Level2, ..self }
        } else {
            self
        }
    }
}

/// The library browser: what is selected in each of its three lists, and
/// which list takes the keys.
pub struct LibraryViewer {
    table_state_l1: TableState,
    table_state_l2: TableState,
    table_state_l3: TableState,
    active_list: ActiveList,
}

impl View for LibraryViewer {
    type V = LibraryState;

    closed spec fn view(&self) -> LibraryState {
        LibraryState {
            selected_l1: table_selected(self.table_state_l1),
            selected_l2: table_selected(self.table_state_l2),
            selected_l3: table_selected(self.table_state_l3),
            active_list: self.active_list,
        }
    }
}

impl LibraryViewer {
    /// A browser with the first row of the first list selected, and the
    /// first list taking the keys.
    pub fn new() -> (viewer: LibraryViewer)
        ensures
            viewer@ == (LibraryState {
                selected_l1: Some(0),
                selected_l2: None,
                selected_l3: None,
                active_list: ActiveList::Level1,
            }),
    {
        let mut table_state_l1 = TableState::new();
        table_state_l1.select(Some(0));
        LibraryViewer {
            table_state_l1,
            table_state_l2: TableState::new(),
            table_state_l3: TableState::new(),
            active_list: ActiveList::Level1,
        }
    }

    /// The list that takes the keys.
    pub fn active_list(&self) -> (active: ActiveList)
        ensures
            active == self@.active_list,
    {
        self.active_list
    }

    /// The row selected in each list.
    pub fn selected(&self) -> (rows: (Option<usize>, Option<usize>, Option<usize>))
        ensures
            rows == (self@.selected_l1, self@.selected_l2, self@.selected_l3),
    {
        (
            self.table_state_l1.selected(),
            self.table_state_l2.selected(),
            self.table_state_l3.selected(),
        )
    }

    /// The state of the table that shows the first list; what it selects
    /// when the caller lets go of it is the browser's selection.
    pub fn table_state_l1(&mut self) -> (state: &mut TableState)
        ensures
            table_selected(*state) == old(self)@.selected_l1,
            final(self)@ == (LibraryState {
                selected_l1: table_selected(*final(state)),
                ..old(self)@
            }),
    {
        &mut self.table_state_l1
    }

    /// The state of the table that shows the second list.
    pub fn table_state_l2(&mut self) -> (state: &mut TableState)
        ensures
            table_selected(*state) == old(self)@.selected_l2,
            final(self)@ == (LibraryState {
                selected_l2: table_selected(*final(state)),
                ..old(self)@
            }),
    {
        &mut self.table_state_l2
    }

    /// The state of the table that shows the third list.
    pub fn table_state_l3(&mut self) -> (state: &mut TableState)
        ensures
            table_selected(*state) == old(self)@.selected_l3,
            final(self)@ == (LibraryState {
                selected_l3: table_selected(*final(state)),
                ..old(self)@
            }),
    {
        &mut self.table_state_l3
    }

    fn active_selected(&self) -> (selected: Option<usize>)
        ensures
            selected == self@.active_selected(),
    {
        match self.active_list {
            ActiveList::Level1 => self.table_state_l1.selected(),
            ActiveList::Level2 => self.table_state_l2.selected(),
            ActiveList::Level3 => self.table_state_l3.selected(),
        }
    }

    fn select_active(&mut self, row: usize)
        ensures
            final(self)@ == old(self)@.with_active_selected(row),
    {
        match self.active_list {
            ActiveList::Level1 => self.table_state_l1.select(Some(row)),
            ActiveList::Level2 => self.table_state_l2.select(Some(row)),
            ActiveList::Level3 => self.table_state_l3.select(Some(row)),
        }
    }

    /// Selects the row above in the list that takes the keys, which has
    /// `size` rows.
    pub fn scroll_up(&mut self, size: usize)
        ensures
            final(self)@ == old(self)@.with_active_selected(
                row_above(row_or_first(old(self)@.active_selected()), size),
            ),
    {
        let current_index = match self.active_selected() {
            None => 0,
            Some(row) => row,
        };
        let target_index = if current_index == 0 {
            if size == 0 {
                0
            } else {
                size - 1
            }
        } else {
            current_index - 1
        };
        self.select_active(target_index);
    }

    /// Selects the row below in the list that takes the keys, which has
    /// `size` rows.
    pub fn scroll_down(&mut self, size: usize)
        ensures
            final(self)@ == old(self)@.with_active_selected(
                row_below(row_or_first(old(self)@.active_selected()), size),
            ),
    {
        let current_index = match self.active_selected() {
            None => 0,
            Some(row) => row,
        };
        let target_index = if size == 0 || current_index >= size - 1 {
            0
        } else {
            current_index + 1
        };
        self.select_active(target_index);
    }

    /// The row selected in the first list; the first row, which is then
    /// selected, where none was.
    pub fn index_l1(&mut self) -> (index: usize)
        ensures
            index == row_or_first(old(self)@.selected_l1),
            final(self)@ == old(self)@.with_rows_down_to(ActiveList::Level1),
    {
        match self.table_state_l1.selected() {
            Some(index) => index,
            None => {
                self.table_state_l1.select(Some(0));
                0
            },
        }
    }

    /// The rows selected in the first and the second list.
    pub fn index_l2(&mut self) -> (index: (usize, usize))
        ensures
            index == (row_or_first(old(self)@.selected_l1), row_or_first(old(self)@.selected_l2)),
            final(self)@ == old(self)@.with_rows_down_to(ActiveList::Level2),
    {
        let row = match self.table_state_l2.selected() {
            Some(index) => index,
            None => {
                self.table_state_l2.select(Some(0));
                0
            },
        };
        (self.index_l1(), row)
    }

    /// The rows selected in all three lists.
    pub fn index_l3(&mut self) -> (index: (usize, usize, usize))
        ensures
            index == (
                row_or_first(old(self)@.selected_l1),
                row_or_first(old(self)@.selected_l2),
                row_or_first(old(self)@.selected_l3),
            ),
            final(self)@ == old(self)@.with_rows_down_to(ActiveList::Level3),
    {
        let row = match self.table_state_l3.selected() {
            Some(index) => index,
            None => {
                self.table_state_l3.select(Some(0));
                0
            },
        };
        let l2 = self.index_l2();
        (l2.0, l2.1, row)
    }

    fn next_list_state(&self) -> (next: ActiveList)
        ensures
            next == self@.active_list.next(),
    {
        match self.active_list {
            ActiveList::Level1 => ActiveList::Level2,
            ActiveList::Level2 => ActiveList::Level3,
            ActiveList::Level3 => ActiveList::Level3,
        }
    }

    fn previous_list_state(&self) -> (previous: ActiveList)
        ensures
            previous == self@.active_list.previous(),
    {
        match self.active_list {
            ActiveList::Level1 => ActiveList::Level1,
            ActiveList::Level2 => ActiveList::Level1,
            ActiveList::Level3 => ActiveList::Level2,
        }
    }

    /// What is selected in the list that takes the keys; the first row is
    /// selected where none was, in that list and in those left of it.
    pub fn get_context(&mut self) -> (selection: Selection)
        ensures
            selection == old(self)@.selection(),
            final(self)@ == old(self)@.with_rows_down_to(old(self)@.active_list),
    {
        match self.active_list {
            ActiveList::Level1 => {
                let index = self.index_l1();
                Selection::Level1(index)
            },
            ActiveList::Level2 => {
                let index = self.index_l2();
                Selection::Level2(index.0, index.1)
            },
            ActiveList::Level3 => {
                let index = self.index_l3();
                Selection::Level3(index.0, index.1, index.2)
            },
        }
    }

    /// Takes a key, `size` being the length of the list that takes the
    /// keys: moves the selection or changes the list, and says what is to be
    /// looked up.
    pub fn handle_key(&mut self, key: LibraryKey, size: usize) -> (request: LibraryRequest)
        ensures
            final(self)@ == old(self)@.after_key(key, size),
            request == old(self)@.request(key),
    {
        match key {
            LibraryKey::Down => {
                self.scroll_down(size);
                LibraryRequest::Nothing
            },
            LibraryKey::Up => {
                self.scroll_up(size);
                LibraryRequest::Nothing
            },
            LibraryKey::Select => {
                if matches!(self.active_list, ActiveList::Level3) {
                    let index = self.index_l3();
                    LibraryRequest::PlayFrom(index.0, index.1, index.2)
                } else {
                    self.active_list = self.next_list_state();
                    LibraryRequest::Nothing
                }
            },
            LibraryKey::Back => {
                self.active_list = self.previous_list_state();
                LibraryRequest::Nothing
            },
            LibraryKey::ItemSet => LibraryRequest::Play(self.get_context()),
            LibraryKey::ItemAdd => LibraryRequest::Queue(self.get_context()),
            LibraryKey::Refresh => LibraryRequest::Resync,
            LibraryKey::Other => LibraryRequest::Nothing,
        }
    }

    /// Takes an input: see `handle_key`.
    pub fn handle_input(&mut self, input: &Input, input_map: &Navigation, size: usize) -> (request:
        LibraryRequest)
        ensures
            final(self)@ == old(self)@.after_key(library_key(*input_map, *input), size),
            request == old(self)@.request(library_key(*input_map, *input)),
    {
        let key = read_library_key(input, input_map);
        self.handle_key(key, size)
    }

    /// The first step of bringing the selection in line with the lists: the
    /// first list has `len` rows. Gives the row whose contents are to be
    /// read for the second list.
    pub fn sync_l1(&mut self, len: usize) -> (row: Option<usize>)
        ensures
            (final(self)@, row) == old(self)@.synced_l1(len),
    {
        if len == 0 {
            return None;
        }
        match self.table_state_l1.selected() {
            Some(row) => Some(
                if row < len {
                    row
                } else {
                    len - 1
                },
            ),
            None => {
                self.table_state_l1.select(Some(0));
                Some(0)
            },
        }
    }

    /// The second step: the second list has `len` rows. Gives the row whose
    /// contents are to be read for the third list.
    pub fn sync_l2(&mut self, len: usize) -> (row: Option<usize>)
        ensures
            (final(self)@, row) == old(self)@.synced_l2(len),
    {
        if len == 0 {
            self.active_list = ActiveList::Level1;
            return None;
        }
        match self.table_state_l2.selected() {
            Some(row) => Some(
                if row < len {
                    row
                } else {
                    len - 1
                },
            ),
            None => {
                self.table_state_l2.select(Some(0));
                Some(0)
            },
        }
    }

    /// The last step: the third list has `len` rows.
    pub fn sync_l3(&mut self, len: usize)
        ensures
            final(self)@ == old(self)@.synced_l3(len),
    {
        let selected = self.table_state_l3.selected();
        if len > 0 && selected.is_none() {
            self.table_state_l3.select(Some(0));
        } else if len == 0 && matches!(self.active_list, ActiveList::Level3) {
            self.active_list = ActiveList::Level2;
        }
    }
}

impl Action {
    /// What comes of a request once the caller has looked up the item, if
    /// there is one: to play it, or to queue it, taken apart or not as the
    /// item's own flag says.
    pub open spec fn of(request: LibraryRequest, item: Option<QueueItem>) -> Action {
        match item {
            None => Action::Nothing,
            Some(item) => match request {
                LibraryRequest::PlayFrom(_, _, _) => Action::Play(item),
                LibraryRequest::Play(_) => Action::Play(item),
                LibraryRequest::Queue(_) => Action::Queue(item, item.flattened()),
                _ => Action::Nothing,
            },
        }
    }

    /// What comes of a request once the caller has looked up the item.
    pub fn for_request(request: LibraryRequest, item: Option<QueueItem>) -> (action: Action)
        ensures
            action == Action::of(request, item),
    {
        match item {
            None => Action::Nothing,
            Some(item) => match request {
                LibraryRequest::PlayFrom(_, _, _) => Action::Play(item),
                LibraryRequest::Play(_) => Action::Play(item),
                LibraryRequest::Queue(_) => {
                    let flatten = item.flatten();
                    Action::Queue(item, flatten)
                },
                _ => Action::Nothing,
            },
        }
    }
}

/// Moving down and then up in a list leads back to the row one came from,
/// and so does moving up and then down.
pub proof fn lemma_rows_wrap(current: usize, size: usize)
    requires
        current < size,
    ensures
        row_above(row_below(current, size), size) == current,
        row_below(row_above(current, size), size) == current,
        row_above(current, size) < size,
        row_below(current, size) < size,
{
}

} // verus!
