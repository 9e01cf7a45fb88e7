//! The state behind the screens: what is selected, what a key does.
pub mod explorer;
pub mod library_view;
pub mod media;
pub mod status;
pub mod tabs;

use crate::playback::playback_context::ContextState;
use crate::playback::playback_context::PlaybackContext;
use crate::playback_loop::PlaybackAction;
use crate::queue::QueueState;
use crate::settings::input::InputMap;
use crate::settings::input::Navigation;
use crate::ui::explorer::file_explorer::explorer_key;
use crate::ui::explorer::file_explorer::Handled;
use crate::ui::explorer::file_explorer::read_explorer_key;
use crate::ui::explorer::file_explorer::DirEntry;
use crate::ui::explorer::file_explorer::Outcome;
use crate::ui::library_view::library_key;
use crate::ui::library_view::Action;
use crate::ui::library_view::LibraryRequest;
use crate::ui::media::handle_media_key;
use crate::ui::media::media_action;
use crate::ui::media::media_key;
use crate::ui::media::queue_after_media;
use crate::ui::media::read_media_key;
use crate::ui::tabs::input_to_log_event;
use crate::ui::tabs::list_after_key;
use crate::ui::tabs::list_key;
use crate::ui::tabs::tab_after_key;
use crate::ui::tabs::tab_key;
use crate::ui::tabs::TabKey;
use crate::ui::tabs::TabPage;
use crate::ui::tabs::TabPages;
use ratatui_eventInput::Input;
use ratatui_eventInput::Key;
use vstd::prelude::*;

verus! {

/// What the screen asks of its caller while it handles an input.
#[derive(Debug, PartialEq)]
pub enum UiRequest {
    /// Read this directory, which the file browser shows by now; answer
    /// with its entries in `Listing`.
    ReadDirectory(String),
    /// Add this file to the library; answer with `Added`.
    AddFile(String),
    /// Do what the library browser asks for and bring its selection in line
    /// with the lists; answer with the `Action` that came of it.
    Library(LibraryRequest),
    /// Read the names of the artists; answer with `Artists`.
    ListArtists,
    /// The input is handled; this command, if any, is to be sent to the
    /// player.
    Done(Option<PlaybackAction>),
}

/// What a `UiRequest` is.
pub enum Demand {
    ReadDirectory(Seq<char>),
    AddFile(Seq<char>),
    Library(LibraryRequest),
    ListArtists,
    Done(Option<PlaybackAction>),
}

impl View for UiRequest {
    type V = Demand;

    open spec fn view(&self) -> Demand {
        match self {
            UiRequest::ReadDirectory(path) => Demand::ReadDirectory(path@),
            UiRequest::AddFile(path) => Demand::AddFile(path@),
            UiRequest::Library(request) => Demand::Library(*request),
            UiRequest::ListArtists => Demand::ListArtists,
            UiRequest::Done(action) => Demand::Done(*action),
        }
    }
}

/// The caller's answer to a `UiRequest`.
pub enum UiEvent {
    Listing(Vec<DirEntry>),
    Added,
    Action(Action),
    Artists(Vec<String>),
}

/// What the screen waits for.
pub enum Waiting {
    /// No input is being handled.
    Nothing,
    /// The entries of the directory that the file browser shows.
    Listing,
    /// That the file was added.
    Added,
    /// What came of the library browser's request.
    Library,
    /// The names of the artists.
    Artists,
}

/// What the active tab asks of the caller when it takes `input`, before the
/// input is handled any further; `None` where it asks nothing.
pub open spec fn page_demand(page: TabPage, navigation: Navigation, input: Input) -> Option<Demand> {
    match page {
        TabPage::FileExplorer(explorer) => if explorer@.can_take(explorer_key(navigation, input)) {
            match explorer@.outcome(explorer_key(navigation, input)) {
                Outcome::Nothing => None,
                Outcome::Open(path) => Some(Demand::ReadDirectory(path)),
                Outcome::Reread => Some(Demand::ReadDirectory(explorer@.cwd)),
                Outcome::Chosen(file) => Some(Demand::AddFile(file.path)),
            }
        } else {
            None
        },
        TabPage::LibraryView(viewer) => Some(
            Demand::Library(viewer@.request(library_key(navigation, input))),
        ),
        _ => None,
    }
}

/// Whether `after` is the tab `before` once it took `input`, `size` being
/// the length of the list that takes the keys in the library browser.
pub open spec fn page_took_input(
    before: TabPage,
    after: TabPage,
    navigation: Navigation,
    input: Input,
    size: usize,
) -> bool {
    match before {
        TabPage::Artists(artists) => after matches TabPage::Artists(then) && then.names()
            == artists.names() && then.selected_item() == list_after_key(
            artists.selected_item(),
            list_key(navigation, input),
        ),
        TabPage::FileExplorer(explorer) => if explorer@.can_take(explorer_key(navigation, input)) {
            after matches TabPage::FileExplorer(then) && then@ == explorer@.after_key(
                explorer_key(navigation, input),
            )
        } else {
            after == before
        },
        TabPage::LibraryView(viewer) => after matches TabPage::LibraryView(then) && then@
            == viewer@.after_key(library_key(navigation, input), size),
        TabPage::TuiLogger(_) => after is TuiLogger,
        TabPage::Queue(queue) => after matches TabPage::Queue(then) && then.selected_item()
            == list_after_key(queue.selected_item(), list_key(navigation, input)),
    }
}

/// What the screen waits for after it gave `demand`.
pub open spec fn waits_for(demand: Demand, waiting: Waiting) -> bool {
    match demand {
        Demand::ReadDirectory(_) => waiting is Listing,
        Demand::AddFile(_) => waiting is Added,
        Demand::Library(_) => waiting is Library,
        Demand::ListArtists => waiting is Artists,
        Demand::Done(_) => waiting is Nothing,
    }
}

/// The state behind the screen: the tabs and the key bindings.
pub struct UI {
    tab_pages: TabPages,
    input_map: InputMap,
    waiting: Waiting,
    input: Input,
}

impl UI {
    /// The tabs.
    pub closed spec fn tabs(&self) -> TabPages {
        self.tab_pages
    }

    /// The key bindings.
    pub closed spec fn bindings(&self) -> InputMap {
        self.input_map
    }

    /// What the screen waits for.
    pub closed spec fn waiting(&self) -> Waiting {
        self.waiting
    }

    /// The input that is being handled.
    pub closed spec fn input(&self) -> Input {
        self.input
    }

    /// The invariant: there is an active tab.
    pub open spec fn wf(&self) -> bool {
        self.tabs().wf()
    }

    /// The active tab.
    pub open spec fn active_page(&self) -> TabPage {
        self.tabs().pages()[self.tabs().active() as int]
    }

    /// A screen with these tabs, the first of them active, and these key
    /// bindings.
    pub fn new(tab_pages: TabPages, input_map: InputMap) -> (ui: UI)
        requires
            tab_pages.wf(),
        ensures
            ui.wf(),
            ui.tabs() == tab_pages,
            ui.bindings() == input_map,
            ui.waiting() is Nothing,
    {
        UI { tab_pages, input_map, waiting: Waiting::Nothing, input: Input::new_key(Key::None) }
    }
}

/// How the handling of an input ends.
pub struct Finished {
    /// The queue then.
    pub queue: QueueState,
    /// The active tab then.
    pub active: nat,
    /// What is asked of the caller at the end.
    pub demand: Demand,
}

/// The end of the handling of `input`, once the active tab has taken it:
/// the keys of the player come first, and where one of them sends a command
/// the input is done with; else the keys of the tab bar change the tab, and
/// a tab of artists that comes up is handed the artists anew.
pub open spec fn finished(
    pages: Seq<TabPage>,
    active: nat,
    bindings: InputMap,
    input: Input,
    queue: QueueState,
) -> Finished {
    let key = media_key(bindings.media, input);
    let queue = queue_after_media(queue, key);
    match media_action(key) {
        Some(action) => Finished { queue, active, demand: Demand::Done(Some(action)) },
        None => {
            let tab = tab_key(bindings.navigation, input);
            let next = tab_after_key(active, pages.len(), tab);
            Finished {
                queue,
                active: next,
                demand: if tab != TabKey::Other && pages[next as int] is Artists {
                    Demand::ListArtists
                } else {
                    Demand::Done(None)
                },
            }
        },
    }
}

/// Whether `after` is the tab `before` once it was handed what the screen
/// waited for: a file browser takes the reading of its directory in, a tab
/// of artists takes their names; everything else stays as it is.
pub open spec fn page_took_event(
    before: TabPage,
    after: TabPage,
    waiting: Waiting,
    event: UiEvent,
) -> bool {
    match (before, waiting, event) {
        (TabPage::FileExplorer(explorer), Waiting::Listing, UiEvent::Listing(entries)) => {
            after matches TabPage::FileExplorer(then) && then@ == explorer@.after_reading(
                explorer@.listing(entries@),
            )
        },
        (TabPage::Artists(artists), Waiting::Artists, UiEvent::Artists(names)) => {
            after matches TabPage::Artists(then) && then.names() == names@ && then.selected_item()
                == artists.selected_item()
        },
        _ => after == before,
    }
}

impl UI {
    /// The tabs, to read.
    pub fn tab_pages(&self) -> (tabs: &TabPages)
        ensures
            *tabs == self.tabs(),
    {
        &self.tab_pages
    }

    /// The key bindings.
    pub fn input_map(&self) -> (bindings: &InputMap)
        ensures
            *bindings == self.bindings(),
    {
        &self.input_map
    }

    /// The tabs, to draw them; what the caller leaves behind are the tabs of
    /// the screen.
    pub fn tab_pages_mut(&mut self) -> (tabs: &mut TabPages)
        ensures
            *tabs == old(self).tabs(),
            final(self).tabs() == *final(tabs),
            final(self).bindings() == old(self).bindings(),
            final(self).waiting() == old(self).waiting(),
            final(self).input() == old(self).input(),
    {
        &mut self.tab_pages
    }

    /// Gives up the input that is being handled, as after a request that
    /// failed: the screen waits for nothing any more.
    pub fn cancel(&mut self)
        ensures
            final(self).waiting() is Nothing,
            final(self).tabs() == old(self).tabs(),
            final(self).bindings() == old(self).bindings(),
            final(self).input() == old(self).input(),
    {
        self.waiting = Waiting::Nothing;
    }

    /// Whether an input is being handled and the screen waits for an answer.
    pub fn is_waiting(&self) -> (waiting: bool)
        ensures
            waiting == !(self.waiting() is Nothing),
    {
        !matches!(self.waiting, Waiting::Nothing)
    }

    /// The active tab takes the input; gives what it asks of the caller.
    fn take_input(&mut self, size: usize) -> (request: Option<UiRequest>)
        requires
            old(self).wf(),
            old(self).waiting() is Nothing,
        ensures
            final(self).wf(),
            final(self).bindings() == old(self).bindings(),
            final(self).input() == old(self).input(),
            final(self).tabs().active() == old(self).tabs().active(),
            final(self).tabs().pages() == old(self).tabs().pages().update(
                old(self).tabs().active() as int,
                final(self).active_page(),
            ),
            page_took_input(
                old(self).active_page(),
                final(self).active_page(),
                old(self).bindings().navigation,
                old(self).input(),
                size,
            ),
            match page_demand(
                old(self).active_page(),
                old(self).bindings().navigation,
                old(self).input(),
            ) {
                None => request is None && final(self).waiting() is Nothing,
                Some(demand) => request is Some && request->0@ == demand && waits_for(
                    demand,
                    final(self).waiting(),
                ),
            },
    {
        let input = self.input;
        let mut waiting = Waiting::Nothing;
        let request = match self.tab_pages.active_tab_mut() {
            TabPage::Artists(artists) => {
                artists.handle_input(&input, &self.input_map.navigation);
                None
            },
            TabPage::FileExplorer(file_explorer) => {
                let key = read_explorer_key(&input, &self.input_map.navigation);
                if file_explorer.can_handle(key) {
                    match file_explorer.handle_key(key) {
                        Handled::Nothing => None,
                        Handled::Open(path) => {
                            waiting = Waiting::Listing;
                            Some(UiRequest::ReadDirectory(path))
                        },
                        Handled::Reread => {
                            waiting = Waiting::Listing;
                            Some(UiRequest::ReadDirectory(file_explorer.cwd().clone()))
                        },
                        Handled::Chosen(file) => {
                            waiting = Waiting::Added;
                            Some(UiRequest::AddFile(file.path().clone()))
                        },
                    }
                } else {
                    None
                }
            },
            TabPage::LibraryView(library_view) => {
                waiting = Waiting::Library;
                Some(
                    UiRequest::Library(
                        library_view.handle_input(&input, &self.input_map.navigation, size),
                    ),
                )
            },
            TabPage::TuiLogger(tui_widget_state) => {
                if let Some(event) = input_to_log_event(&input, &self.input_map.navigation) {
                    tui_widget_state.transition(event);
                }
                None
            },
            TabPage::Queue(queue_view) => {
                queue_view.handle_input(&input, &self.input_map.navigation);
                None
            },
        };
        self.waiting = waiting;
        request
    }

    /// Ends the handling of the input: see `finished`.
    fn finish(&mut self, context: &mut PlaybackContext) -> (request: UiRequest)
        requires
            old(self).wf(),
            old(context).wf(),
        ensures
            final(self).wf(),
            final(context).wf(),
            final(self).bindings() == old(self).bindings(),
            final(self).input() == old(self).input(),
            final(self).tabs().pages() == old(self).tabs().pages(),
            ({
                let end = finished(
                    old(self).tabs().pages(),
                    old(self).tabs().active(),
                    old(self).bindings(),
                    old(self).input(),
                    old(context)@.queue,
                );
                &&& final(context)@ == (ContextState { queue: end.queue, ..old(context)@ })
                &&& final(self).tabs().active() == end.active
                &&& request@ == end.demand
                &&& waits_for(end.demand, final(self).waiting())
            }),
    {
        let input = self.input;
        let key = read_media_key(&input, &self.input_map.media);
        let playback_action = handle_media_key(key, context);
        if playback_action.is_some() {
            self.waiting = Waiting::Nothing;
            return UiRequest::Done(playback_action);
        }
        let switched = self.tab_pages.handle_input(&input, &self.input_map.navigation);
        if switched && self.tab_pages.active_tab().reads_database() {
            self.waiting = Waiting::Artists;
            UiRequest::ListArtists
        } else {
            self.waiting = Waiting::Nothing;
            UiRequest::Done(None)
        }
    }

    /// Takes an input; an input that was still being handled is given up.
    /// First the active tab takes the input, `size` being the length of the
    /// list that takes the keys in the library browser; where the tab asks
    /// something of the caller, that is the request, and `resume` goes on
    /// from the answer. Else the input is handled to its end: see
    /// `finished`.
    pub fn handle_input(&mut self, input: Input, context: &mut PlaybackContext, size: usize) -> (request:
        UiRequest)
        requires
            old(self).wf(),
            old(context).wf(),
        ensures
            final(self).wf(),
            final(context).wf(),
            final(self).bindings() == old(self).bindings(),
            final(self).input() == input,
            final(self).tabs().pages() == old(self).tabs().pages().update(
                old(self).tabs().active() as int,
                final(self).tabs().pages()[old(self).tabs().active() as int],
            ),
            page_took_input(
                old(self).active_page(),
                final(self).tabs().pages()[old(self).tabs().active() as int],
                old(self).bindings().navigation,
                input,
                size,
            ),
            match page_demand(old(self).active_page(), old(self).bindings().navigation, input) {
                Some(demand) => {
                    &&& request@ == demand
                    &&& waits_for(demand, final(self).waiting())
                    &&& final(context)@ == old(context)@
                    &&& final(self).tabs().active() == old(self).tabs().active()
                },
                None => {
                    let end = finished(
                        final(self).tabs().pages(),
                        old(self).tabs().active(),
                        old(self).bindings(),
                        input,
                        old(context)@.queue,
                    );
                    &&& final(context)@ == (ContextState { queue: end.queue, ..old(context)@ })
                    &&& final(self).tabs().active() == end.active
                    &&& request@ == end.demand
                    &&& waits_for(end.demand, final(self).waiting())
                },
            },
    {
        self.input = input;
        self.waiting = Waiting::Nothing;
        match self.take_input(size) {
            Some(request) => request,
            None => self.finish(context),
        }
    }

    /// The active tab takes what the screen waited for: see
    /// `page_took_event`.
    fn take_event(&mut self, event: UiEvent)
        requires
            old(self).wf(),
        ensures
            final(self).wf(),
            final(self).bindings() == old(self).bindings(),
            final(self).input() == old(self).input(),
            final(self).waiting() == old(self).waiting(),
            final(self).tabs().active() == old(self).tabs().active(),
            final(self).tabs().pages() == old(self).tabs().pages().update(
                old(self).tabs().active() as int,
                final(self).active_page(),
            ),
            page_took_event(
                old(self).active_page(),
                final(self).active_page(),
                old(self).waiting(),
                event,
            ),
    {
        let ghost before = self.tab_pages.pages();
        let ghost active = self.tab_pages.active() as int;
        match self.tab_pages.active_tab_mut() {
            TabPage::FileExplorer(file_explorer) => match &self.waiting {
                Waiting::Listing => match event {
                    UiEvent::Listing(entries) => {
                        file_explorer.take_reading(entries);
                    },
                    _ => {},
                },
                _ => {},
            },
            TabPage::Artists(artists) => match &self.waiting {
                Waiting::Artists => match event {
                    UiEvent::Artists(names) => {
                        artists.sync_with_database(names);
                    },
                    _ => {},
                },
                _ => {},
            },
            _ => {},
        }
        proof {
            let after = self.tab_pages.pages();
            assert(after =~= before.update(active, after[active]));
        }
    }

    /// Goes on with an input after the caller's answer to the last request.
    ///
    /// The active tab takes the answer. What came of a request of the
    /// library browser is then carried out: an item to play is the command
    /// of this input, and the input is done with; an item for the queue is
    /// appended to it. After the artists were handed over the input is done
    /// with as well. In every other case the input is handled to its end:
    /// see `finished`. Where the screen waits for nothing, nothing happens.
    pub fn resume(&mut self, event: UiEvent, context: &mut PlaybackContext) -> (request: UiRequest)
        requires
            old(self).wf(),
            old(context).wf(),
        ensures
            final(self).wf(),
            final(context).wf(),
            final(self).bindings() == old(self).bindings(),
            final(self).input() == old(self).input(),
            final(self).tabs().pages() == old(self).tabs().pages().update(
                old(self).tabs().active() as int,
                final(self).tabs().pages()[old(self).tabs().active() as int],
            ),
            page_took_event(
                old(self).active_page(),
                final(self).tabs().pages()[old(self).tabs().active() as int],
                old(self).waiting(),
                event,
            ),
            match (old(self).waiting(), event) {
                (Waiting::Nothing, _) => {
                    &&& request@ == Demand::Done(None)
                    &&& final(self).waiting() is Nothing
                    &&& final(context)@ == old(context)@
                    &&& final(self).tabs().active() == old(self).tabs().active()
                },
                (Waiting::Artists, _) => {
                    &&& request@ == Demand::Done(None)
                    &&& final(self).waiting() is Nothing
                    &&& final(context)@ == old(context)@
                    &&& final(self).tabs().active() == old(self).tabs().active()
                },
                (Waiting::Library, UiEvent::Action(Action::Play(item))) => {
                    &&& request@ == Demand::Done(Some(PlaybackAction::Play(item)))
                    &&& final(self).waiting() is Nothing
                    &&& final(context)@ == old(context)@
                    &&& final(self).tabs().active() == old(self).tabs().active()
                },
                (waiting, event) => {
                    let queue = match (waiting, event) {
                        (
                            Waiting::Library,
                            UiEvent::Action(Action::Queue(item, flatten)),
                        ) => old(context)@.queue.appended(item, flatten),
                        _ => old(context)@.queue,
                    };
                    let end = finished(
                        final(self).tabs().pages(),
                        old(self).tabs().active(),
                        old(self).bindings(),
                        old(self).input(),
                        queue,
                    );
                    &&& final(context)@ == (ContextState { queue: end.queue, ..old(context)@ })
                    &&& final(self).tabs().active() == end.active
                    &&& request@ == end.demand
                    &&& waits_for(end.demand, final(self).waiting())
                },
            },
    {
        match &self.waiting {
            Waiting::Nothing => {
                assert(self.tab_pages.pages() =~= self.tab_pages.pages().update(
                    self.tab_pages.active() as int,
                    self.tab_pages.pages()[self.tab_pages.active() as int],
                ));
                UiRequest::Done(None)
            },
            Waiting::Artists => {
                self.take_event(event);
                self.waiting = Waiting::Nothing;
                UiRequest::Done(None)
            },
            Waiting::Library => {
                assert(self.tab_pages.pages() =~= self.tab_pages.pages().update(
                    self.tab_pages.active() as int,
                    self.tab_pages.pages()[self.tab_pages.active() as int],
                ));
                match event {
                    UiEvent::Action(Action::Play(queue_item)) => {
                        self.waiting = Waiting::Nothing;
                        UiRequest::Done(Some(PlaybackAction::Play(queue_item)))
                    },
                    UiEvent::Action(Action::Queue(queue_item, flatten)) => {
                        context.lock_queue().append_queue_item(queue_item, flatten);
                        self.finish(context)
                    },
                    _ => self.finish(context),
                }
            },
            _ => {
                self.take_event(event);
                self.finish(context)
            },
        }
    }
}

} // verus!
