//! The file browser: one directory's listing, and the entry that is
//! selected in it.
//!
//! Reading a directory is the caller's part. The browser is handed what was
//! read, decides what of it is shown and in which order, and says which
//! directory it wants read next.
use crate::settings::input::is_bound;
use crate::settings::input::pressed;
use crate::settings::input::Navigation;
use crate::ui::explorer::order::lemma_bytes_le_reflexive;
use crate::ui::explorer::order::lemma_bytes_le_total;
use crate::ui::explorer::order::lemma_bytes_le_transitive;
use crate::ui::explorer::order::name_comes_first;
use crate::ui::explorer::order::name_le;
use ratatui_eventInput::Input;
use vstd::prelude::*;
use vstd::seq_lib::to_multiset_insert;
use vstd::string::StrSliceExecFns;
use vstd::string::StringExecFns;

verus! {

/// One entry of a directory, as it was read.
#[derive(Clone, Debug, PartialEq, Eq)]
pub struct DirEntry {
    /// The last part of the path.
    pub file_name: String,
    pub path: String,
    pub is_dir: bool,
    /// What follows the last dot of the file name; empty where there is none.
    pub extension: String,
}

/// A directory, and the directories above it.
#[derive(Clone, Debug, PartialEq, Eq)]
pub struct Directory {
    pub path: String,
    /// The directories above, the nearest first; empty for a root.
    pub parents: Vec<String>,
}

/// What a file of the browser is.
pub struct FileView {
    pub name: Seq<char>,
    pub path: Seq<char>,
    pub is_dir: bool,
}

/// A file or directory in the file explorer.
#[derive(Debug, Clone, PartialEq, Eq, Hash)]
pub struct File {
    name: String,
    path: String,
    is_dir: bool,
}

impl View for File {
    type V = FileView;

    closed spec fn view(&self) -> FileView {
        FileView { name: self.name@, path: self.path@, is_dir: self.is_dir }
    }
}

impl File {
    /// The name as it is shown: a directory's ends in `/`.
    #[inline]
    pub fn name(&self) -> (name: &str)
        ensures
            name@ == self@.name,
    {
        self.name.as_str()
    }

    #[inline]
    pub fn path(&self) -> (path: &String)
        ensures
            path@ == self@.path,
    {
        &self.path
    }

    #[inline]
    pub fn is_dir(&self) -> (is_dir: bool)
        ensures
            is_dir == self@.is_dir,
    {
        self.is_dir
    }
}

/// The views of `files`, in their order.
pub open spec fn views(files: Seq<File>) -> Seq<FileView> {
    files.map_values(|file: File| file@)
}

/// The views of the strings of `filter`.
pub open spec fn filter_views(filter: Seq<String>) -> Seq<Seq<char>> {
    filter.map_values(|extension: String| extension@)
}

impl DirEntry {
    /// The name under which the entry is shown: a directory's ends in `/`.
    pub open spec fn display_name(self) -> Seq<char> {
        if self.is_dir {
            self.file_name@ + "/"@
        } else {
            self.file_name@
        }
    }

    /// Whether the entry is shown: a directory always, a file if there is no
    /// filter or its extension is in the filter; and neither if its name
    /// starts with a dot, unless hidden files are shown.
    pub open spec fn is_shown(self, filter: Seq<Seq<char>>, show_hidden: bool) -> bool {
        &&& self.is_dir || filter.len() == 0 || filter.contains(self.extension@)
        &&& show_hidden || !(self.display_name().len() > 0 && self.display_name()[0] == '.')
    }

    /// The entry as a file of the browser.
    pub open spec fn as_file(self) -> FileView {
        FileView { name: self.display_name(), path: self.path@, is_dir: self.is_dir }
    }
}

/// The files that are shown of `entries`, in the order in which they were
/// read.
pub open spec fn shown_files(entries: Seq<DirEntry>, filter: Seq<Seq<char>>, show_hidden: bool) -> Seq<
    FileView,
>
    decreases entries.len(),
{
    if entries.len() == 0 {
        Seq::empty()
    } else {
        let before = shown_files(entries.drop_last(), filter, show_hidden);
        if entries.last().is_shown(filter, show_hidden) {
            before.push(entries.last().as_file())
        } else {
            before
        }
    }
}

/// Whether `a` stands before `b` in a listing, or may: directories come
/// first, and among directories, and among files, the names decide.
pub open spec fn file_le(a: FileView, b: FileView) -> bool {
    if a.is_dir == b.is_dir {
        name_le(a.name, b.name)
    } else {
        a.is_dir
    }
}

/// Whether `files` stand in the order of a listing.
pub open spec fn ordered(files: Seq<FileView>) -> bool {
    forall|i: int, j: int| 0 <= i < j < files.len() ==> file_le(files[i], files[j])
}

/// The entry that leads to the directory above.
pub open spec fn parent_file(parent: Seq<char>) -> FileView {
    FileView { name: "../"@, path: parent, is_dir: true }
}

/// The place at which `file` goes into `files`, which are in order: behind
/// all the files at the front that may stand before it.
pub open spec fn place_index(files: Seq<FileView>, file: FileView) -> int
    decreases files.len(),
{
    if files.len() == 0 || !file_le(files[0], file) {
        0
    } else {
        1 + place_index(files.drop_first(), file)
    }
}

/// `files` with `file` put in its place.
pub open spec fn placed(files: Seq<FileView>, file: FileView) -> Seq<FileView> {
    files.insert(place_index(files, file), file)
}

/// `files` in the order of a listing; files that may stand either way keep
/// the order in which they were read.
pub open spec fn in_order(files: Seq<FileView>) -> Seq<FileView>
    decreases files.len(),
{
    if files.len() == 0 {
        Seq::empty()
    } else {
        placed(in_order(files.drop_last()), files.last())
    }
}

/// The listing of `entries`: first the way up, if there is one; then the
/// entries that are shown, in order.
pub open spec fn listing_of(
    parent: Option<Seq<char>>,
    entries: Seq<DirEntry>,
    filter: Seq<Seq<char>>,
    show_hidden: bool,
) -> Seq<FileView> {
    let shown = in_order(shown_files(entries, filter, show_hidden));
    match parent {
        None => shown,
        Some(path) => seq![parent_file(path)] + shown,
    }
}

/// Whether `files` is a listing of `entries`: first the way up, if there is
/// one; then exactly the entries that are shown, each once, directories
/// before files and each kind by name.
pub open spec fn is_listing(
    files: Seq<FileView>,
    parent: Option<Seq<char>>,
    entries: Seq<DirEntry>,
    filter: Seq<Seq<char>>,
    show_hidden: bool,
) -> bool {
    let head: int = if parent is Some {
        1
    } else {
        0
    };
    &&& files.len() >= head
    &&& parent is Some ==> files[0] == parent_file(parent->0)
    &&& files.skip(head).to_multiset() == shown_files(entries, filter, show_hidden).to_multiset()
    &&& ordered(files.skip(head))
}

/// The view of a path that may be missing.
pub open spec fn path_view(path: Option<String>) -> Option<Seq<char>> {
    match path {
        None => None,
        Some(path) => Some(path@),
    }
}

/// Of two files one may stand before the other.
pub proof fn lemma_file_le_total(a: FileView, b: FileView)
    ensures
        file_le(a, b) || file_le(b, a),
{
    lemma_bytes_le_total(vstd::utf8::encode_utf8(a.name), vstd::utf8::encode_utf8(b.name));
}

/// A file may stand before itself.
pub proof fn lemma_file_le_reflexive(a: FileView)
    ensures
        file_le(a, a),
{
    lemma_bytes_le_reflexive(vstd::utf8::encode_utf8(a.name));
}

/// What may stand before a file may stand before all that the file may stand
/// before.
pub proof fn lemma_file_le_transitive(a: FileView, b: FileView, c: FileView)
    requires
        file_le(a, b),
        file_le(b, c),
    ensures
        file_le(a, c),
{
    if a.is_dir == b.is_dir && b.is_dir == c.is_dir {
        lemma_bytes_le_transitive(
            vstd::utf8::encode_utf8(a.name),
            vstd::utf8::encode_utf8(b.name),
            vstd::utf8::encode_utf8(c.name),
        );
    }
}

/// Whether `a` may stand before `b` in a listing.
fn file_comes_first(a: &File, b: &File) -> (first: bool)
    ensures
        first == file_le(a@, b@),
{
    if a.is_dir == b.is_dir {
        name_comes_first(a.name.as_str(), b.name.as_str())
    } else {
        a.is_dir
    }
}

/// Whether a file with this extension passes the filter.
fn extension_passes(filter: &Vec<String>, extension: &String) -> (passes: bool)
    ensures
        passes == (filter.len() == 0 || filter_views(filter@).contains(extension@)),
{
    if filter.len() == 0 {
        return true;
    }
    let mut i: usize = 0;
    while i < filter.len()
        invariant
            i <= filter.len(),
            forall|k: int| 0 <= k < i ==> filter_views(filter@)[k] != extension@,
        decreases filter.len() - i,
    {
        if filter[i] == *extension {
            assert(filter_views(filter@)[i as int] == extension@);
            return true;
        }
        i += 1;
    }
    false
}

/// Whether the name starts with a dot.
fn is_hidden(name: &str) -> (hidden: bool)
    ensures
        hidden == (name@.len() > 0 && name@[0] == '.'),
{
    name.unicode_len() > 0 && name.get_char(0) == '.'
}

/// The entry as a file of the browser, if it is shown.
fn shown(entry: &DirEntry, filter: &Vec<String>, show_hidden: bool) -> (file: Option<File>)
    ensures
        match file {
            None => !entry.is_shown(filter_views(filter@), show_hidden),
            Some(file) => entry.is_shown(filter_views(filter@), show_hidden) && file@
                == entry.as_file(),
        },
{
    if !entry.is_dir && !extension_passes(filter, &entry.extension) {
        return None;
    }
    let name = if entry.is_dir {
        entry.file_name.clone().concat("/")
    } else {
        entry.file_name.clone()
    };
    if !show_hidden && is_hidden(name.as_str()) {
        return None;
    }
    Some(File { name, path: entry.path.clone(), is_dir: entry.is_dir })
}

/// The place of a file is where the files before it may all stand before it,
/// and the file at the place, if there is one, may not.
proof fn lemma_place_index(files: Seq<FileView>, file: FileView, at: int)
    requires
        0 <= at <= files.len(),
        forall|k: int| 0 <= k < at ==> file_le(#[trigger] files[k], file),
        at < files.len() ==> !file_le(files[at], file),
    ensures
        place_index(files, file) == at,
    decreases at,
{
    if at > 0 {
        let rest = files.drop_first();
        assert forall|k: int| 0 <= k < at - 1 implies file_le(#[trigger] rest[k], file) by {
            assert(rest[k] == files[k + 1]);
        }
        lemma_place_index(rest, file, at - 1);
    }
}

/// Puts `file` where it belongs among the files from `head` on, which are in
/// order: behind all that may stand before it.
fn place(files: &mut Vec<File>, head: usize, file: File)
    requires
        head <= old(files).len(),
        ordered(views(old(files)@).skip(head as int)),
    ensures
        final(files).len() == old(files).len() + 1,
        views(final(files)@).skip(head as int) == placed(
            views(old(files)@).skip(head as int),
            file@,
        ),
        views(final(files)@).take(head as int) == views(old(files)@).take(head as int),
        ordered(views(final(files)@).skip(head as int)),
        views(final(files)@).skip(head as int).to_multiset() == views(old(files)@).skip(
            head as int,
        ).to_multiset().insert(file@),
{
    let ghost before = views(files@);
    let mut i: usize = head;
    while i < files.len() && file_comes_first(&files[i], &file)
        invariant
            head <= i <= files.len(),
            *files == *old(files),
            before == views(files@),
            forall|k: int| head <= k < i ==> file_le(#[trigger] before[k], file@),
        decreases files.len() - i,
    {
        i += 1;
    }
    files.insert(i, file);
    proof {
        let after = views(files@);
        let tail = before.skip(head as int);
        let at = i - head;
        assert(after =~= before.insert(i as int, file@));
        assert forall|k: int| 0 <= k < at implies file_le(#[trigger] tail[k], file@) by {
            assert(tail[k] == before[head + k]);
        }
        lemma_place_index(tail, file@, at);
        assert(after.skip(head as int) =~= tail.insert(at, file@));
        assert(after.take(head as int) =~= before.take(head as int));
        to_multiset_insert(tail, at, file@);
        assert forall|p: int, q: int| 0 <= p < q < tail.len() + 1 implies file_le(
            tail.insert(at, file@)[p],
            tail.insert(at, file@)[q],
        ) by {
            if q == at {
                assert(tail[p] == before[head + p]);
            } else if p == at {
                assert(tail[at] == before[i as int]);
                lemma_file_le_total(before[i as int], file@);
                if q - 1 > at {
                    assert(file_le(tail[at], tail[q - 1]));
                    lemma_file_le_transitive(file@, tail[at], tail[q - 1]);
                }
            } else if p < at && q > at {
                assert(file_le(tail[p], tail[q - 1]));
            } else if p < at {
                assert(file_le(tail[p], tail[q]));
            } else {
                assert(file_le(tail[p - 1], tail[q - 1]));
            }
        }
    }
}

/// The listing of a directory: the way up first, if there is one, then the
/// entries that are shown, directories before files and each kind by name.
pub fn list_files(
    parent: &Option<String>,
    entries: &Vec<DirEntry>,
    filter: &Vec<String>,
    show_hidden: bool,
) -> (files: Vec<File>)
    ensures
        views(files@) == listing_of(
            path_view(*parent),
            entries@,
            filter_views(filter@),
            show_hidden,
        ),
        is_listing(
            views(files@),
            path_view(*parent),
            entries@,
            filter_views(filter@),
            show_hidden,
        ),
{
    let mut files: Vec<File> = Vec::new();
    let head: usize = match parent {
        None => 0,
        Some(path) => {
            files.push(File { name: String::from_str("../"), path: path.clone(), is_dir: true });
            1
        },
    };
    let ghost first = views(files@);
    assert(views(files@).skip(head as int) =~= Seq::<FileView>::empty());
    let mut k: usize = 0;
    while k < entries.len()
        invariant
            k <= entries.len(),
            head <= 1,
            head == first.len(),
            files.len() >= head,
            views(files@).take(head as int) == first,
            ordered(views(files@).skip(head as int)),
            views(files@).skip(head as int) == in_order(
                shown_files(entries@.take(k as int), filter_views(filter@), show_hidden),
            ),
            views(files@).skip(head as int).to_multiset() == shown_files(
                entries@.take(k as int),
                filter_views(filter@),
                show_hidden,
            ).to_multiset(),
        decreases entries.len() - k,
    {
        proof {
            let before = shown_files(entries@.take(k as int), filter_views(filter@), show_hidden);
            assert(before.push(entries@[k as int].as_file()).drop_last() =~= before);
            assert(entries@.take(k + 1).drop_last() =~= entries@.take(k as int));
            vstd::seq_lib::to_multiset_build(
                shown_files(entries@.take(k as int), filter_views(filter@), show_hidden),
                entries@[k as int].as_file(),
            );
        }
        match shown(&entries[k], filter, show_hidden) {
            None => {},
            Some(file) => {
                place(&mut files, head, file);
            },
        }
        k += 1;
    }
    proof {
        assert(entries@.take(entries.len() as int) =~= entries@);
        assert(views(files@) =~= views(files@).take(head as int) + views(files@).skip(
            head as int,
        ));
        if head == 1 {
            assert(views(files@)[0] == views(files@).take(1)[0]);
            assert(first =~= seq![parent_file(path_view(*parent)->0)]);
        } else {
            assert(first =~= Seq::<FileView>::empty());
        }
    }
    files
}

/// What the browser is waiting to read.
#[derive(Clone, Copy, Debug, PartialEq, Eq, Structural)]
pub enum Reading {
    Nothing,
    /// The directory it has gone to; the first file will be selected.
    Entered,
    /// The directory it shows, after hidden files were switched over; the
    /// number is the last place of the listing before.
    Toggled(usize),
}

/// What a `Reading` is.
pub enum ReadingView {
    Nothing,
    Entered,
    Toggled(nat),
}

impl View for Reading {
    type V = ReadingView;

    open spec fn view(&self) -> ReadingView {
        match self {
            Reading::Nothing => ReadingView::Nothing,
            Reading::Entered => ReadingView::Entered,
            Reading::Toggled(last) => ReadingView::Toggled(*last as nat),
        }
    }
}

/// What a file browser is.
pub struct ExplorerState {
    /// The directory that is shown.
    pub cwd: Seq<char>,
    /// The directories above it, the nearest first.
    pub parents: Seq<Seq<char>>,
    pub files: Seq<FileView>,
    /// The place of the selected file. It may lie behind the listing after
    /// a reading that gave fewer files.
    pub selected: nat,
    /// The extensions of the files that are shown; all are, if it is empty.
    pub filter: Seq<Seq<char>>,
    pub show_hidden: bool,
    pub reading: ReadingView,
}

/// The directories above `path`, which is an entry of `cwd` or the way up
/// from it: those above `cwd` without the nearest where `path` is the
/// nearest; else `cwd` and all above it.
pub open spec fn parents_of(path: Seq<char>, cwd: Seq<char>, parents: Seq<Seq<char>>) -> Seq<
    Seq<char>,
> {
    if parents.len() > 0 && path == parents[0] {
        parents.drop_first()
    } else {
        seq![cwd] + parents
    }
}

impl ExplorerState {
    /// The directory above the one that is shown, if there is one.
    pub open spec fn parent(self) -> Option<Seq<char>> {
        if self.parents.len() > 0 {
            Some(self.parents[0])
        } else {
            None
        }
    }

    /// Whether the files are the listing of `entries` under the browser's
    /// filter.
    pub open spec fn lists(self, entries: Seq<DirEntry>) -> bool {
        is_listing(self.files, self.parent(), entries, self.filter, self.show_hidden)
    }

    /// The listing of `entries` under the browser's filter.
    pub open spec fn listing(self, entries: Seq<DirEntry>) -> Seq<FileView> {
        listing_of(self.parent(), entries, self.filter, self.show_hidden)
    }

    /// Whether the browser can take `key`: it needs a file in its listing;
    /// to select, the selection must lie inside the listing; to go down,
    /// there must be a number after that of the selection.
    pub open spec fn can_take(self, key: ExplorerKey) -> bool {
        &&& self.files.len() >= 1
        &&& key == ExplorerKey::Select ==> self.selected < self.files.len()
        &&& key == ExplorerKey::Down ==> self.selected < usize::MAX
    }

    /// The browser with the selection one file up, from the first file on
    /// the last.
    pub open spec fn moved_up(self) -> ExplorerState {
        ExplorerState {
            selected: if self.selected == 0 {
                (self.files.len() - 1) as nat
            } else {
                (self.selected - 1) as nat
            },
            ..self
        }
    }

    /// The browser with the selection one file down, from the last file on
    /// the first.
    pub open spec fn moved_down(self) -> ExplorerState {
        ExplorerState {
            selected: if self.selected == self.files.len() - 1 {
                0
            } else {
                self.selected + 1
            },
            ..self
        }
    }

    /// The browser after a key. Going up or into a directory changes the
    /// directory at once, and going into one takes its entry out of the
    /// listing, the last file moving to its place; the listing of the new
    /// directory comes with the reading. So does the new listing after
    /// hidden files were switched over.
    pub open spec fn after_key(self, key: ExplorerKey) -> ExplorerState {
        let quiet = ExplorerState { reading: ReadingView::Nothing, ..self };
        match key {
            ExplorerKey::Up => quiet.moved_up(),
            ExplorerKey::Down => quiet.moved_down(),
            ExplorerKey::Back => if self.parents.len() > 0 {
                ExplorerState {
                    cwd: self.parents[0],
                    parents: self.parents.drop_first(),
                    reading: ReadingView::Entered,
                    ..self
                }
            } else {
                quiet
            },
            ExplorerKey::Select => {
                let file = self.files[self.selected as int];
                if file.is_dir {
                    ExplorerState {
                        cwd: file.path,
                        parents: parents_of(file.path, self.cwd, self.parents),
                        files: self.files.update(self.selected as int, self.files.last()).drop_last(),
                        reading: ReadingView::Entered,
                        ..self
                    }
                } else {
                    quiet
                }
            },
            ExplorerKey::HideToggle => ExplorerState {
                show_hidden: !self.show_hidden,
                reading: ReadingView::Toggled((self.files.len() - 1) as nat),
                ..self
            },
            ExplorerKey::Other => quiet,
        }
    }

    /// What the browser asks of its caller after a key: to read the
    /// directory it has gone to, or the directory it shows after hidden
    /// files were switched over; or that a file was chosen.
    pub open spec fn outcome(self, key: ExplorerKey) -> Outcome {
        match key {
            ExplorerKey::Back => if self.parents.len() > 0 {
                Outcome::Open(self.parents[0])
            } else {
                Outcome::Nothing
            },
            ExplorerKey::Select => if self.files[self.selected as int].is_dir {
                Outcome::Open(self.files[self.selected as int].path)
            } else {
                Outcome::Chosen(self.files[self.selected as int])
            },
            ExplorerKey::HideToggle => Outcome::Reread,
            _ => Outcome::Nothing,
        }
    }

    /// The browser after the reading that the last key asked for gave
    /// `files`: in a directory it has gone to the first file is selected;
    /// after hidden files were switched over a selection behind the new
    /// listing goes to the last place of the listing before.
    pub open spec fn after_reading(self, files: Seq<FileView>) -> ExplorerState {
        ExplorerState {
            files,
            selected: match self.reading {
                ReadingView::Nothing => self.selected,
                ReadingView::Entered => 0,
                ReadingView::Toggled(last) => if self.selected >= files.len() {
                    last
                } else {
                    self.selected
                },
            },
            reading: ReadingView::Nothing,
            ..self
        }
    }
}

/// What a key means to the file browser.
#[derive(Clone, Copy, Debug, PartialEq, Eq, Structural)]
pub enum ExplorerKey {
    Up,
    Down,
    /// To the directory above.
    Back,
    /// Into the selected directory, or choose the selected file.
    Select,
    /// Show hidden files, or show them no longer.
    HideToggle,
    /// Nothing.
    Other,
}

/// What `input` means to the file browser under `key_map`. Where an input is
/// bound to several of these, the first in this order counts: up, down,
/// back, select, hide.
pub open spec fn explorer_key(key_map: Navigation, input: Input) -> ExplorerKey {
    if is_bound(key_map.list_up@, input) {
        ExplorerKey::Up
    } else if is_bound(key_map.list_down@, input) {
        ExplorerKey::Down
    } else if is_bound(key_map.list_back@, input) {
        ExplorerKey::Back
    } else if is_bound(key_map.list_select@, input) {
        ExplorerKey::Select
    } else if is_bound(key_map.hide_toggle@, input) {
        ExplorerKey::HideToggle
    } else {
        ExplorerKey::Other
    }
}

/// What the browser asks of its caller after a key.
#[derive(Debug, Clone, PartialEq, Eq)]
pub enum Handled {
    Nothing,
    /// This file was chosen; it is no directory.
    Chosen(File),
    /// The browser has gone to the directory with this path; it is to be
    /// read, and the reading handed to `take_reading`.
    Open(String),
    /// The directory that the browser shows is to be read again, and the
    /// reading handed to `take_reading`.
    Reread,
}

/// What a `Handled` is.
pub enum Outcome {
    Nothing,
    Chosen(FileView),
    Open(Seq<char>),
    Reread,
}

impl View for Handled {
    type V = Outcome;

    open spec fn view(&self) -> Outcome {
        match self {
            Handled::Nothing => Outcome::Nothing,
            Handled::Chosen(file) => Outcome::Chosen(file@),
            Handled::Open(path) => Outcome::Open(path@),
            Handled::Reread => Outcome::Reread,
        }
    }
}

/// What `input` means to the file browser under `key_map`.
pub fn read_explorer_key(input: &Input, key_map: &Navigation) -> (key: ExplorerKey)
    ensures
        key == explorer_key(*key_map, *input),
{
    if pressed(&key_map.list_up, input) {
        ExplorerKey::Up
    } else if pressed(&key_map.list_down, input) {
        ExplorerKey::Down
    } else if pressed(&key_map.list_back, input) {
        ExplorerKey::Back
    } else if pressed(&key_map.list_select, input) {
        ExplorerKey::Select
    } else if pressed(&key_map.hide_toggle, input) {
        ExplorerKey::HideToggle
    } else {
        ExplorerKey::Other
    }
}

/// The file browser.
#[derive(Debug, Clone)]
pub struct FileExplorer {
    cwd: String,
    parents: Vec<String>,
    files: Vec<File>,
    selected: usize,
    filter: Vec<String>,
    show_hidden: bool,
    reading: Reading,
}

impl View for FileExplorer {
    type V = ExplorerState;

    closed spec fn view(&self) -> ExplorerState {
        ExplorerState {
            cwd: self.cwd@,
            parents: filter_views(self.parents@),
            files: views(self.files@),
            selected: self.selected as nat,
            filter: filter_views(self.filter@),
            show_hidden: self.show_hidden,
            reading: self.reading@,
        }
    }
}

impl FileExplorer {
    /// A browser on the directory `cwd`, whose reading gave `entries`:
    /// without a filter, hidden files not shown, the first place selected.
    pub fn new(cwd: Directory, entries: Vec<DirEntry>) -> (explorer: FileExplorer)
        ensures
            explorer@.cwd == cwd.path@,
            explorer@.parents == filter_views(cwd.parents@),
            explorer@.filter.len() == 0,
            !explorer@.show_hidden,
            explorer@.selected == 0,
            explorer@.reading == ReadingView::Nothing,
            explorer@.files == explorer@.listing(entries@),
            explorer@.lists(entries@),
    {
        FileExplorer::with_filter(cwd, entries, Vec::new())
    }

    /// A browser as `new` makes it, that shows only directories and the
    /// files with an extension of `filter`.
    #[inline]
    pub fn with_filter(cwd: Directory, entries: Vec<DirEntry>, filter: Vec<String>) -> (explorer:
        FileExplorer)
        ensures
            explorer@.cwd == cwd.path@,
            explorer@.parents == filter_views(cwd.parents@),
            explorer@.filter == filter_views(filter@),
            !explorer@.show_hidden,
            explorer@.selected == 0,
            explorer@.reading == ReadingView::Nothing,
            explorer@.files == explorer@.listing(entries@),
            explorer@.lists(entries@),
    {
        let mut explorer = FileExplorer {
            cwd: cwd.path,
            parents: cwd.parents,
            files: Vec::new(),
            selected: 0,
            filter,
            show_hidden: false,
            reading: Reading::Nothing,
        };
        explorer.refresh(entries);
        explorer
    }

    /// The directory above the one that is shown, if there is one.
    fn parent(&self) -> (parent: Option<String>)
        ensures
            path_view(parent) == self@.parent(),
    {
        if self.parents.len() > 0 {
            Some(self.parents[0].clone())
        } else {
            None
        }
    }

    /// Lists what reading the shown directory gave. Nothing but the files
    /// changes: the selection stays where it is, also where it then lies
    /// behind the listing.
    pub fn refresh(&mut self, entries: Vec<DirEntry>)
        ensures
            final(self)@.lists(entries@),
            final(self)@ == (ExplorerState { files: old(self)@.listing(entries@), ..old(self)@ }),
    {
        let parent = self.parent();
        self.files = list_files(&parent, &entries, &self.filter, self.show_hidden);
    }

    /// Takes in the reading that the last key asked for: see
    /// `ExplorerState::after_reading`.
    pub fn take_reading(&mut self, entries: Vec<DirEntry>)
        ensures
            final(self)@.lists(entries@),
            final(self)@ == old(self)@.after_reading(old(self)@.listing(entries@)),
    {
        self.refresh(entries);
        match self.reading {
            Reading::Nothing => {},
            Reading::Entered => {
                self.selected = 0;
            },
            Reading::Toggled(last_index) => {
                if self.selected >= self.files.len() {
                    self.selected = last_index;
                }
            },
        }
        self.reading = Reading::Nothing;
    }

    /// Goes to the directory `cwd`, whose reading gave `entries`; the first
    /// place is selected.
    #[inline]
    pub fn set_cwd(&mut self, cwd: Directory, entries: Vec<DirEntry>)
        ensures
            final(self)@.lists(entries@),
            final(self)@ == (ExplorerState {
                cwd: cwd.path@,
                parents: filter_views(cwd.parents@),
                files: final(self)@.listing(entries@),
                selected: 0,
                ..old(self)@
            }),
    {
        self.cwd = cwd.path;
        self.parents = cwd.parents;
        self.refresh(entries);
        self.selected = 0;
    }

    /// Sets the filter, and lists what reading the shown directory gave.
    /// The selection stays where it is.
    pub fn set_filter(&mut self, filter: Vec<String>, entries: Vec<DirEntry>)
        ensures
            final(self)@.lists(entries@),
            final(self)@ == (ExplorerState {
                filter: filter_views(filter@),
                files: final(self)@.listing(entries@),
                ..old(self)@
            }),
    {
        self.filter = filter;
        self.refresh(entries);
    }

    /// Selects the file at `selected`.
    #[inline]
    pub fn set_selected_idx(&mut self, selected: usize)
        requires
            selected < old(self)@.files.len(),
        ensures
            final(self)@ == (ExplorerState { selected: selected as nat, ..old(self)@ }),
    {
        self.selected = selected;
    }

    /// The selected file.
    #[inline]
    pub fn current(&self) -> (file: &File)
        requires
            self@.selected < self@.files.len(),
        ensures
            file@ == self@.files[self@.selected as int],
    {
        &self.files[self.selected]
    }

    /// The selected file, if the selection lies inside the listing.
    pub fn selected_file(&self) -> (file: Option<&File>)
        ensures
            match file {
                None => self@.selected >= self@.files.len(),
                Some(file) => self@.selected < self@.files.len() && file@
                    == self@.files[self@.selected as int],
            },
    {
        if self.selected < self.files.len() {
            Some(&self.files[self.selected])
        } else {
            None
        }
    }

    /// The directory that is shown.
    #[inline]
    pub fn cwd(&self) -> (cwd: &String)
        ensures
            cwd@ == self@.cwd,
    {
        &self.cwd
    }

    /// The directories above the one that is shown, the nearest first.
    pub fn parents(&self) -> (parents: &Vec<String>)
        ensures
            filter_views(parents@) == self@.parents,
    {
        &self.parents
    }

    /// The listing.
    #[inline]
    pub fn files(&self) -> (files: &Vec<File>)
        ensures
            views(files@) == self@.files,
    {
        &self.files
    }

    /// The place of the selected file.
    #[inline]
    pub fn selected_idx(&self) -> (selected: usize)
        ensures
            selected == self@.selected,
    {
        self.selected
    }

    /// Whether hidden files are shown.
    pub fn show_hidden(&self) -> (show: bool)
        ensures
            show == self@.show_hidden,
    {
        self.show_hidden
    }

    /// Whether the browser can take `key`: see `ExplorerState::can_take`.
    pub fn can_handle(&self, key: ExplorerKey) -> (can: bool)
        ensures
            can == self@.can_take(key),
    {
        self.files.len() >= 1 && (!matches!(key, ExplorerKey::Select) || self.selected
            < self.files.len()) && (!matches!(key, ExplorerKey::Down) || self.selected
            < usize::MAX)
    }

    /// Goes into the directory at the selection.
    fn enter(&mut self) -> (path: String)
        requires
            old(self)@.selected < old(self)@.files.len(),
            old(self)@.files[old(self)@.selected as int].is_dir,
        ensures
            final(self)@ == old(self)@.after_key(ExplorerKey::Select),
            path@ == old(self)@.files[old(self)@.selected as int].path,
    {
        let ghost before = self.files@;
        let ghost above = self.parents@;
        let file = self.files.swap_remove(self.selected);
        assert(views(self.files@) =~= views(before).update(
            self.selected as int,
            views(before).last(),
        ).drop_last());
        let up = self.parents.len() > 0 && file.path == self.parents[0];
        if up {
            let _ = self.parents.remove(0);
            assert(filter_views(self.parents@) =~= filter_views(above).drop_first());
        } else {
            self.parents.insert(0, self.cwd.clone());
            assert(filter_views(self.parents@) =~= seq![self.cwd@] + filter_views(above));
        }
        self.cwd = file.path.clone();
        self.reading = Reading::Entered;
        file.path
    }

    /// Takes a key: moves the selection, changes the directory, or switches
    /// hidden files over, and says what is to be read or what was chosen.
    pub fn handle_key(&mut self, key: ExplorerKey) -> (handled: Handled)
        requires
            old(self)@.can_take(key),
        ensures
            final(self)@ == old(self)@.after_key(key),
            handled@ == old(self)@.outcome(key),
    {
        let last_index = self.files.len() - 1;
        match key {
            ExplorerKey::Up => {
                self.reading = Reading::Nothing;
                if self.selected == 0 {
                    self.selected = last_index;
                } else {
                    self.selected = self.selected - 1;
                }
                Handled::Nothing
            },
            ExplorerKey::Down => {
                self.reading = Reading::Nothing;
                if self.selected == last_index {
                    self.selected = 0;
                } else {
                    self.selected = self.selected + 1;
                }
                Handled::Nothing
            },
            ExplorerKey::Back => {
                if self.parents.len() > 0 {
                    let ghost above = self.parents@;
                    self.cwd = self.parents.remove(0);
                    assert(filter_views(self.parents@) =~= filter_views(above).drop_first());
                    self.reading = Reading::Entered;
                    Handled::Open(self.cwd.clone())
                } else {
                    self.reading = Reading::Nothing;
                    Handled::Nothing
                }
            },
            ExplorerKey::Select => {
                if self.files[self.selected].is_dir {
                    Handled::Open(self.enter())
                } else {
                    self.reading = Reading::Nothing;
                    let file = &self.files[self.selected];
                    Handled::Chosen(
                        File {
                            name: file.name.clone(),
                            path: file.path.clone(),
                            is_dir: file.is_dir,
                        },
                    )
                }
            },
            ExplorerKey::HideToggle => {
                self.show_hidden = !self.show_hidden;
                self.reading = Reading::Toggled(last_index);
                Handled::Reread
            },
            ExplorerKey::Other => {
                self.reading = Reading::Nothing;
                Handled::Nothing
            },
        }
    }

    /// Takes an input: see `handle_key`.
    pub fn handle(&mut self, input: &Input, key_map: &Navigation) -> (handled: Handled)
        requires
            old(self)@.can_take(explorer_key(*key_map, *input)),
        ensures
            final(self)@ == old(self)@.after_key(explorer_key(*key_map, *input)),
            handled@ == old(self)@.outcome(explorer_key(*key_map, *input)),
    {
        let key = read_explorer_key(input, key_map);
        self.handle_key(key)
    }
}

/// A listing has one file for every entry that is shown, and one more for
/// the way up where there is one.
pub proof fn lemma_listing_len(
    files: Seq<FileView>,
    parent: Option<Seq<char>>,
    entries: Seq<DirEntry>,
    filter: Seq<Seq<char>>,
    show_hidden: bool,
)
    requires
        is_listing(files, parent, entries, filter, show_hidden),
    ensures
        files.len() == shown_files(entries, filter, show_hidden).len() + if parent is Some {
            1nat
        } else {
            0nat
        },
        shown_files(entries, filter, show_hidden).len() <= entries.len(),
{
    let head: int = if parent is Some {
        1
    } else {
        0
    };
    files.skip(head).to_multiset_ensures();
    shown_files(entries, filter, show_hidden).to_multiset_ensures();
    lemma_shown_files_len(entries, filter, show_hidden);
}

/// No more files are shown than there are entries.
pub proof fn lemma_shown_files_len(entries: Seq<DirEntry>, filter: Seq<Seq<char>>, show_hidden: bool)
    ensures
        shown_files(entries, filter, show_hidden).len() <= entries.len(),
    decreases entries.len(),
{
    if entries.len() > 0 {
        lemma_shown_files_len(entries.drop_last(), filter, show_hidden);
    }
}

/// A file of a listing, the way up aside, is an entry that is shown; and
/// every entry that is shown is a file of the listing.
pub proof fn lemma_listing_holds_what_is_shown(
    files: Seq<FileView>,
    parent: Option<Seq<char>>,
    entries: Seq<DirEntry>,
    filter: Seq<Seq<char>>,
    show_hidden: bool,
    file: FileView,
)
    requires
        is_listing(files, parent, entries, filter, show_hidden),
    ensures
        files.skip(
            if parent is Some {
                1int
            } else {
                0int
            },
        ).contains(file) <==> shown_files(entries, filter, show_hidden).contains(file),
{
    let head: int = if parent is Some {
        1
    } else {
        0
    };
    let shown = shown_files(entries, filter, show_hidden);
    files.skip(head).to_multiset_ensures();
    shown.to_multiset_ensures();
    assert(files.skip(head).to_multiset().count(file) == shown.to_multiset().count(file));
}

/// Where the selection lies inside the listing, a step down and then a step
/// up leads back to the file one came from, and so does a step up and then a
/// step down.
pub proof fn lemma_up_undoes_down(explorer: ExplorerState)
    requires
        explorer.selected < explorer.files.len(),
    ensures
        explorer.moved_down().selected < explorer.files.len(),
        explorer.moved_up().selected < explorer.files.len(),
        explorer.moved_down().moved_up() == explorer,
        explorer.moved_up().moved_down() == explorer,
{
}

/// Switching hidden files over twice in a directory that stays as it is
/// shows what was shown before, and leaves the selection where it was, if it
/// lay inside both listings.
pub proof fn lemma_toggle_twice(explorer: ExplorerState, entries: Seq<DirEntry>)
    requires
        explorer.files == explorer.listing(entries),
        explorer.selected < explorer.files.len(),
        explorer.selected < explorer.after_key(ExplorerKey::HideToggle).listing(entries).len(),
    ensures
        ({
            let toggled = explorer.after_key(ExplorerKey::HideToggle);
            let other = toggled.after_reading(toggled.listing(entries));
            let again = other.after_key(ExplorerKey::HideToggle);
            again.after_reading(again.listing(entries)) == (ExplorerState {
                reading: ReadingView::Nothing,
                ..explorer
            })
        }),
{
}

} // verus!
