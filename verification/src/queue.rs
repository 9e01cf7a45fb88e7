//! The play queue: an ordered list of entries, a cursor on the track that is
//! playing, and the policy (shuffle, repeat) that picks what follows it.
//!
//! An entry is a single track, or an album or playlist kept as one unit. The
//! cursor names an entry and a track inside it, so a unit is walked track by
//! track when playback reaches it. Entries without any track are never stored.
use vstd::prelude::*;

verus! {

/// How the queue picks the entry that follows the current one.
#[derive(Clone, Copy, Debug, PartialEq, Eq, Structural)]
pub enum ShuffleType {
    /// Entries follow each other in queue order.
    Off,
    /// Every entry is played once per epoch, in pseudo-random order.
    Shuffled,
}

impl ShuffleType {
    /// The number of shuffle modes.
    pub const COUNT: usize = 2;

    /// The mode that follows `self` in the fixed rotation.
    pub open spec fn successor(self) -> ShuffleType {
        match self {
            ShuffleType::Off => ShuffleType::Shuffled,
            ShuffleType::Shuffled => ShuffleType::Off,
        }
    }

    /// `self` after `n` steps of the rotation.
    pub open spec fn rotated(self, n: nat) -> ShuffleType
        decreases n,
    {
        if n == 0 {
            self
        } else {
            self.successor().rotated((n - 1) as nat)
        }
    }

    /// The mode that follows `self` in the fixed rotation.
    pub fn next(self) -> (r: ShuffleType)
        ensures
            r == self.successor(),
    {
        match self {
            ShuffleType::Off => ShuffleType::Shuffled,
            ShuffleType::Shuffled => ShuffleType::Off,
        }
    }
}

/// The policy of a queue.
#[derive(Clone, Copy, Debug, PartialEq, Eq, Structural)]
pub struct QueueOptions {
    pub shuffle_type: ShuffleType,
    /// At the end of the queue, start over instead of stopping.
    pub repeat: bool,
}

/// Something that can be put in the queue.
///
/// An album or playlist carries its tracks in source order, and a flag that
/// says whether it is taken apart into single tracks when it is played.
#[derive(Clone, Debug, PartialEq, Eq)]
pub enum QueueItem {
    Track(String),
    Album(Vec<String>, bool),
    PlayList(Vec<String>, bool),
}

impl QueueItem {
    /// The tracks of the item, in source order.
    pub open spec fn tracks(self) -> Seq<String> {
        match self {
            QueueItem::Track(path) => seq![path],
            QueueItem::Album(tracks, _) => tracks@,
            QueueItem::PlayList(tracks, _) => tracks@,
        }
    }

    /// Whether the item is an album or a playlist.
    pub open spec fn is_compound(self) -> bool {
        !(self is Track)
    }

    /// The item's own flatten flag; a single track has none.
    pub open spec fn flattened(self) -> bool {
        match self {
            QueueItem::Track(_) => false,
            QueueItem::Album(_, flatten) => flatten,
            QueueItem::PlayList(_, flatten) => flatten,
        }
    }

    /// The entries that inserting the item adds to a queue: nothing for an
    /// item without tracks, one `Track` per track for a compound item that is
    /// flattened, the item itself otherwise.
    pub open spec fn entries(self, flatten: bool) -> Seq<QueueItem> {
        if self.tracks().len() == 0 {
            Seq::empty()
        } else if flatten && self.is_compound() {
            Seq::new(self.tracks().len(), |i: int| QueueItem::Track(self.tracks()[i]))
        } else {
            seq![self]
        }
    }

    /// The number of tracks of the item.
    pub fn track_count(&self) -> (n: usize)
        ensures
            n == self.tracks().len(),
    {
        match self {
            QueueItem::Track(_) => 1,
            QueueItem::Album(tracks, _) => tracks.len(),
            QueueItem::PlayList(tracks, _) => tracks.len(),
        }
    }

    /// The track at `index`.
    pub fn track(&self, index: usize) -> (t: &String)
        requires
            index < self.tracks().len(),
        ensures
            *t == self.tracks()[index as int],
    {
        match self {
            QueueItem::Track(path) => path,
            QueueItem::Album(tracks, _) => &tracks[index],
            QueueItem::PlayList(tracks, _) => &tracks[index],
        }
    }

    /// The item's own flatten flag; `false` for a single track.
    pub fn flatten(&self) -> (f: bool)
        ensures
            f == self.flattened(),
    {
        match self {
            QueueItem::Track(_) => false,
            QueueItem::Album(_, flatten) => *flatten,
            QueueItem::PlayList(_, flatten) => *flatten,
        }
    }
}

/// The multiplier of the generator behind `Shuffled`.
pub const SEED_FACTOR: u64 = 6364136223846793005;

/// The increment of the generator behind `Shuffled`.
pub const SEED_STEP: u64 = 1442695040888963407;

/// The generator's state after `seed`.
pub open spec fn next_seed(seed: u64) -> u64 {
    seed.wrapping_mul(SEED_FACTOR).wrapping_add(SEED_STEP)
}

/// The number below `count` that the generator's state `seed` stands for.
#[verifier::opaque]
pub open spec fn draw(seed: u64, count: nat) -> nat {
    (seed as nat) % count
}

/// The number of entries not yet played in this epoch.
pub open spec fn unvisited_count(visited: Seq<bool>) -> nat
    decreases visited.len(),
{
    if visited.len() == 0 {
        0
    } else {
        unvisited_count(visited.drop_last()) + if visited.last() {
            0nat
        } else {
            1nat
        }
    }
}

/// Whether `index` is the place of the entry that has exactly `k` unvisited
/// entries before it and is itself unvisited.
pub open spec fn is_nth_unvisited(visited: Seq<bool>, k: nat, index: int) -> bool {
    &&& 0 <= index < visited.len()
    &&& !visited[index]
    &&& unvisited_count(visited.take(index)) == k
}

/// The place of the unvisited entry with `k` unvisited entries before it.
pub open spec fn nth_unvisited(visited: Seq<bool>, k: nat) -> int {
    choose|index: int| is_nth_unvisited(visited, k, index)
}

/// What a queue is: its entries, its policy, the cursor and the shuffle epoch.
pub struct QueueState {
    pub items: Seq<QueueItem>,
    pub options: QueueOptions,
    /// The entry that is playing; `None` exactly when the queue is empty.
    pub cursor: Option<int>,
    /// The track inside the entry at the cursor.
    pub offset: int,
    /// Per entry, whether it was played in the current shuffle epoch.
    pub visited: Seq<bool>,
    /// The state of the pseudo-random generator.
    pub seed: u64,
}

impl QueueState {
    pub open spec fn wf(self) -> bool {
        &&& self.visited.len() == self.items.len()
        &&& forall|i: int| 0 <= i < self.items.len() ==> (#[trigger] self.items[i]).tracks().len() > 0
        &&& match self.cursor {
            None => self.items.len() == 0 && self.offset == 0,
            Some(c) => 0 <= c < self.items.len() && 0 <= self.offset < self.items[c].tracks().len(),
        }
    }

    /// The queue with no entries.
    pub open spec fn empty(options: QueueOptions, seed: u64) -> QueueState {
        QueueState {
            items: Seq::empty(),
            options,
            cursor: None,
            offset: 0,
            visited: Seq::empty(),
            seed,
        }
    }

    /// The track at the cursor.
    pub open spec fn current(self) -> Option<String> {
        match self.cursor {
            None => None,
            Some(c) => Some(self.items[c].tracks()[self.offset]),
        }
    }

    /// The queue after `item` was put at its tail.
    pub open spec fn appended(self, item: QueueItem, flatten: bool) -> QueueState {
        let added = item.entries(flatten);
        QueueState {
            items: self.items + added,
            visited: self.visited + Seq::new(added.len(), |i: int| false),
            cursor: if self.cursor is None && added.len() > 0 {
                Some(0)
            } else {
                self.cursor
            },
            ..self
        }
    }

    /// The queue that holds `item` alone, the cursor on its first track.
    pub open spec fn replaced(self, item: QueueItem) -> QueueState {
        QueueState::empty(self.options, self.seed).appended(item, item.flattened())
    }

    /// Whether the cursor stands on the last track of its entry.
    pub open spec fn at_entry_end(self) -> bool {
        match self.cursor {
            None => true,
            Some(c) => self.offset + 1 >= self.items[c].tracks().len(),
        }
    }

    /// The epoch bookkeeping once the entry at the cursor counts as played.
    pub open spec fn visited_after_current(self) -> Seq<bool> {
        match self.cursor {
            None => self.visited,
            Some(c) => self.visited.update(c, true),
        }
    }

    /// Whether `advance` finds a track to go on with.
    pub open spec fn has_next(self) -> bool {
        match self.cursor {
            None => false,
            Some(c) => {
                ||| !self.at_entry_end()
                ||| self.options.repeat
                ||| match self.options.shuffle_type {
                    ShuffleType::Off => c + 1 < self.items.len(),
                    ShuffleType::Shuffled => unvisited_count(self.visited_after_current()) > 0,
                }
            },
        }
    }

    /// The queue after the cursor left its entry in queue order: the next
    /// entry follows, and after the last one the first, if `repeat` is set.
    pub open spec fn next_in_order(self) -> QueueState {
        let c = self.cursor->0;
        if c + 1 < self.items.len() {
            QueueState { cursor: Some(c + 1), offset: 0, ..self }
        } else if self.options.repeat {
            QueueState { cursor: Some(0), offset: 0, ..self }
        } else {
            self
        }
    }

    /// The queue after the cursor left its entry shuffled: the entry counts as
    /// played, and one not yet played in this epoch is drawn; when none is
    /// left a new epoch starts with any entry, if `repeat` is set.
    pub open spec fn next_shuffled(self) -> QueueState {
        let played = self.visited_after_current();
        let left = unvisited_count(played);
        if left > 0 {
            QueueState {
                cursor: Some(nth_unvisited(played, draw(self.seed, left))),
                offset: 0,
                visited: played,
                seed: next_seed(self.seed),
                ..self
            }
        } else if self.options.repeat {
            QueueState {
                cursor: Some(draw(self.seed, self.items.len()) as int),
                offset: 0,
                visited: Seq::new(self.items.len(), |i: int| false),
                seed: next_seed(self.seed),
                ..self
            }
        } else {
            QueueState { visited: played, ..self }
        }
    }

    /// The queue after one `advance`.
    ///
    /// Inside a unit the cursor moves to its next track. At the end of an
    /// entry the policy decides which entry follows. Where nothing follows
    /// the cursor stays.
    pub open spec fn advanced(self) -> QueueState {
        if self.cursor is None {
            self
        } else if !self.at_entry_end() {
            QueueState { offset: self.offset + 1, ..self }
        } else {
            match self.options.shuffle_type {
                ShuffleType::Off => self.next_in_order(),
                ShuffleType::Shuffled => self.next_shuffled(),
            }
        }
    }

    /// The queue after one `cycle_shuffle`: the next mode, and a fresh epoch.
    pub open spec fn cycled(self) -> QueueState {
        QueueState {
            options: QueueOptions {
                shuffle_type: self.options.shuffle_type.successor(),
                ..self.options
            },
            visited: Seq::new(self.items.len(), |i: int| false),
            ..self
        }
    }

    /// The queue after `n` times `cycle_shuffle`.
    pub open spec fn cycled_times(self, n: nat) -> QueueState
        decreases n,
    {
        if n == 0 {
            self
        } else {
            self.cycled().cycled_times((n - 1) as nat)
        }
    }
}

/// The play queue.
#[derive(Debug)]
pub struct Queue {
    queue_items: Vec<QueueItem>,
    /// The policy; callers may set `repeat` and `shuffle_type` directly.
    pub queue_options: QueueOptions,
    cursor: Option<usize>,
    offset: usize,
    visited: Vec<bool>,
    seed: u64,
}

impl View for Queue {
    type V = QueueState;

    closed spec fn view(&self) -> QueueState {
        QueueState {
            items: self.queue_items@,
            options: self.queue_options,
            cursor: match self.cursor {
                None => None,
                Some(c) => Some(c as int),
            },
            offset: self.offset as int,
            visited: self.visited@,
            seed: self.seed,
        }
    }
}

impl Queue {
    /// The invariant of a queue: the cursor names a track, or the queue is
    /// empty and there is no cursor.
    pub open spec fn wf(&self) -> bool {
        self@.wf()
    }

    /// An empty queue, in queue order and without repeat.
    pub fn new() -> (q: Queue)
        ensures
            q.wf(),
            q@ == QueueState::empty(
                QueueOptions { shuffle_type: ShuffleType::Off, repeat: false },
                0,
            ),
    {
        Queue::with_seed(0)
    }

    /// An empty queue whose shuffle order starts from `seed`.
    pub fn with_seed(seed: u64) -> (q: Queue)
        ensures
            q.wf(),
            q@ == QueueState::empty(
                QueueOptions { shuffle_type: ShuffleType::Off, repeat: false },
                seed,
            ),
    {
        Queue {
            queue_items: Vec::new(),
            queue_options: QueueOptions { shuffle_type: ShuffleType::Off, repeat: false },
            cursor: None,
            offset: 0,
            visited: Vec::new(),
            seed,
        }
    }

    /// The entries, in queue order.
    pub fn queue_items(&self) -> (items: &Vec<QueueItem>)
        ensures
            items@ == self@.items,
    {
        &self.queue_items
    }

    /// The number of entries.
    pub fn len(&self) -> (n: usize)
        ensures
            n == self@.items.len(),
    {
        self.queue_items.len()
    }

    /// Whether the queue has no entry.
    pub fn is_empty(&self) -> (b: bool)
        ensures
            b == (self@.items.len() == 0),
    {
        self.queue_items.len() == 0
    }

    /// The entry that is playing.
    pub fn cursor(&self) -> (c: Option<usize>)
        ensures
            match c {
                None => self@.cursor is None,
                Some(i) => self@.cursor == Some(i as int),
            },
    {
        self.cursor
    }

    /// The track that is playing, or `None` in an empty queue.
    pub fn current_track(&self) -> (track: Option<&String>)
        requires
            self.wf(),
        ensures
            match track {
                None => self@.current() is None,
                Some(t) => self@.current() == Some(*t),
            },
    {
        match self.cursor {
            None => None,
            Some(c) => Some(self.queue_items[c].track(self.offset)),
        }
    }

    /// Whether the entries are played in shuffled order.
    pub fn is_shuffled(&self) -> (b: bool)
        ensures
            b == (self@.options.shuffle_type == ShuffleType::Shuffled),
    {
        match self.queue_options.shuffle_type {
            ShuffleType::Off => false,
            ShuffleType::Shuffled => true,
        }
    }

    /// Whether the queue starts over at its end.
    pub fn repeat(&self) -> (repeat: bool)
        ensures
            repeat == self@.options.repeat,
    {
        self.queue_options.repeat
    }

    /// The shuffle mode.
    pub fn shuffle_type(&self) -> (mode: ShuffleType)
        ensures
            mode == self@.options.shuffle_type,
    {
        self.queue_options.shuffle_type
    }

    /// Sets `repeat`.
    pub fn set_repeat(&mut self, repeat: bool)
        ensures
            final(self)@ == (QueueState {
                options: QueueOptions { repeat, ..old(self)@.options },
                ..old(self)@
            }),
    {
        self.queue_options.repeat = repeat;
    }

    /// Puts `item` at the tail of the queue. With `flatten`, an album or a
    /// playlist goes in as its tracks, one entry each, in source order;
    /// otherwise it stays one entry. An item without tracks adds nothing. The
    /// first entry of an empty queue becomes the current one.
    pub fn append_queue_item(&mut self, item: QueueItem, flatten: bool)
        requires
            old(self).wf(),
        ensures
            final(self).wf(),
            final(self)@ == old(self)@.appended(item, flatten),
    {
        let count = item.track_count();
        if count == 0 {
            assert(self@.items + item.entries(flatten) =~= self@.items);
            assert(self@.visited + Seq::new(0, |i: int| false) =~= self@.visited);
            return ;
        }
        let was_empty = self.cursor.is_none();
        let is_track = matches!(item, QueueItem::Track(_));
        if flatten && !is_track {
            let mut i: usize = 0;
            while i < count
                invariant
                    i <= count,
                    count == item.tracks().len(),
                    self.queue_options == old(self).queue_options,
                    self.cursor == old(self).cursor,
                    self.offset == old(self).offset,
                    self.seed == old(self).seed,
                    self.queue_items@ == old(self).queue_items@ + Seq::new(
                        i as nat,
                        |j: int| QueueItem::Track(item.tracks()[j]),
                    ),
                    self.visited@ == old(self).visited@ + Seq::new(i as nat, |j: int| false),
                decreases count - i,
            {
                let track = item.track(i).clone();
                self.queue_items.push(QueueItem::Track(track));
                self.visited.push(false);
                i += 1;
            }
        } else {
            self.queue_items.push(item);
            self.visited.push(false);
            assert(self.queue_items@ == old(self).queue_items@ + seq![item]);
            assert(self.visited@ == old(self).visited@ + Seq::new(1, |j: int| false));
        }
        if was_empty {
            self.cursor = Some(0);
        }
    }

    /// Empties the queue and puts `item` in it, taken apart or not as its own
    /// flag says; the cursor stands on its first track.
    pub fn replace_with(&mut self, item: QueueItem)
        requires
            old(self).wf(),
        ensures
            final(self).wf(),
            final(self)@ == old(self)@.replaced(item),
    {
        self.queue_items = Vec::new();
        self.visited = Vec::new();
        self.cursor = None;
        self.offset = 0;
        let flatten = item.flatten();
        self.append_queue_item(item, flatten);
    }

    /// Starts a new shuffle epoch: no entry counts as played.
    fn clear_visited(&mut self)
        requires
            old(self).wf(),
        ensures
            final(self).wf(),
            final(self)@ == (QueueState {
                visited: Seq::new(old(self)@.items.len(), |i: int| false),
                ..old(self)@
            }),
    {
        let n = self.visited.len();
        let mut i: usize = 0;
        while i < n
            invariant
                i <= n,
                n == self.visited.len(),
                self.queue_items == old(self).queue_items,
                self.queue_options == old(self).queue_options,
                self.cursor == old(self).cursor,
                self.offset == old(self).offset,
                self.seed == old(self).seed,
                n == old(self).queue_items.len(),
                forall|j: int| 0 <= j < i ==> !self.visited[j],
            decreases n - i,
        {
            self.visited.set(i, false);
            i += 1;
        }
        assert(self.visited@ =~= Seq::new(old(self)@.items.len(), |i: int| false));
    }

    /// Rotates the shuffle mode to the next one and starts a new epoch.
    pub fn cycle_shuffle(&mut self)
        requires
            old(self).wf(),
        ensures
            final(self).wf(),
            final(self)@ == old(self)@.cycled(),
    {
        self.clear_visited();
        self.queue_options.shuffle_type = self.queue_options.shuffle_type.next();
    }

    /// The step of `advance` at the end of an entry, in queue order.
    fn advance_in_order(&mut self) -> (moved: bool)
        requires
            old(self).wf(),
            old(self)@.cursor is Some,
            old(self)@.at_entry_end(),
            old(self)@.options.shuffle_type == ShuffleType::Off,
        ensures
            final(self).wf(),
            final(self)@ == old(self)@.next_in_order(),
            moved == old(self)@.has_next(),
    {
        let c = match self.cursor {
            None => 0,
            Some(c) => c,
        };
        assert(self@.cursor == Some(c as int));
        assert(c < self.queue_items.len());
        if c + 1 < self.queue_items.len() {
            self.cursor = Some(c + 1);
            self.offset = 0;
            true
        } else if self.queue_options.repeat {
            self.cursor = Some(0);
            self.offset = 0;
            true
        } else {
            false
        }
    }

    /// The step of `advance` at the end of an entry, shuffled.
    fn advance_shuffled(&mut self) -> (moved: bool)
        requires
            old(self).wf(),
            old(self)@.cursor is Some,
            old(self)@.at_entry_end(),
            old(self)@.options.shuffle_type == ShuffleType::Shuffled,
        ensures
            final(self).wf(),
            final(self)@ == old(self)@.next_shuffled(),
            moved == old(self)@.has_next(),
    {
        let c = match self.cursor {
            None => 0,
            Some(c) => c,
        };
        proof {
            reveal(draw);
        }
        self.visited.set(c, true);
        let ghost played = self.visited@;
        assert(played == old(self)@.visited_after_current());
        let left = count_unvisited(&self.visited);
        if left > 0 {
            let k = (self.seed % (left as u64)) as usize;
            let pick = find_unvisited(&self.visited, k);
            proof {
                lemma_nth_unvisited_unique(played, k as nat, pick as int);
                assert(k as nat == draw(old(self)@.seed, left as nat));
            }
            self.cursor = Some(pick);
            self.offset = 0;
            self.seed = self.seed.wrapping_mul(SEED_FACTOR).wrapping_add(SEED_STEP);
            true
        } else if self.queue_options.repeat {
            let pick = (self.seed % (self.queue_items.len() as u64)) as usize;
            assert(pick as nat == draw(old(self)@.seed, old(self)@.items.len()));
            self.clear_visited();
            self.cursor = Some(pick);
            self.offset = 0;
            self.seed = self.seed.wrapping_mul(SEED_FACTOR).wrapping_add(SEED_STEP);
            true
        } else {
            false
        }
    }

    /// Moves the cursor to the track that follows, as the policy has it, and
    /// says whether there was one. Where nothing follows the cursor stays.
    pub fn advance(&mut self) -> (moved: bool)
        requires
            old(self).wf(),
        ensures
            final(self).wf(),
            final(self)@ == old(self)@.advanced(),
            moved == old(self)@.has_next(),
    {
        let c = match self.cursor {
            None => {
                return false;
            },
            Some(c) => c,
        };
        let count = self.queue_items[c].track_count();
        if self.offset + 1 < count {
            self.offset = self.offset + 1;
            return true;
        }
        match self.queue_options.shuffle_type {
            ShuffleType::Off => self.advance_in_order(),
            ShuffleType::Shuffled => self.advance_shuffled(),
        }
    }
}

/// Counting one entry more adds one exactly when that entry is unvisited.
pub proof fn lemma_unvisited_count_step(visited: Seq<bool>, index: int)
    requires
        0 <= index < visited.len(),
    ensures
        unvisited_count(visited.take(index + 1)) == unvisited_count(visited.take(index)) + if visited[index] {
            0nat
        } else {
            1nat
        },
{
    assert(visited.take(index + 1).drop_last() =~= visited.take(index));
}

/// The count of unvisited entries grows with the length of the prefix.
pub proof fn lemma_unvisited_count_monotonic(visited: Seq<bool>, i: int, j: int)
    requires
        0 <= i <= j <= visited.len(),
    ensures
        unvisited_count(visited.take(i)) <= unvisited_count(visited.take(j)),
    decreases j - i,
{
    if i < j {
        lemma_unvisited_count_monotonic(visited, i, j - 1);
        lemma_unvisited_count_step(visited, j - 1);
    }
}

/// There is one place at most with `k` unvisited entries before it that is
/// itself unvisited.
pub proof fn lemma_nth_unvisited_unique(visited: Seq<bool>, k: nat, index: int)
    requires
        is_nth_unvisited(visited, k, index),
    ensures
        nth_unvisited(visited, k) == index,
{
    let other = nth_unvisited(visited, k);
    assert(is_nth_unvisited(visited, k, other));
    if other < index {
        lemma_unvisited_count_step(visited, other);
        lemma_unvisited_count_monotonic(visited, other + 1, index);
    } else if index < other {
        lemma_unvisited_count_step(visited, index);
        lemma_unvisited_count_monotonic(visited, index + 1, other);
    }
}

fn count_unvisited(visited: &Vec<bool>) -> (n: usize)
    ensures
        n == unvisited_count(visited@),
{
    let mut n: usize = 0;
    let mut i: usize = 0;
    while i < visited.len()
        invariant
            i <= visited.len(),
            n <= i,
            n == unvisited_count(visited@.take(i as int)),
        decreases visited.len() - i,
    {
        proof {
            lemma_unvisited_count_step(visited@, i as int);
        }
        if !visited[i] {
            n += 1;
        }
        i += 1;
    }
    assert(visited@.take(visited.len() as int) =~= visited@);
    n
}

fn find_unvisited(visited: &Vec<bool>, k: usize) -> (index: usize)
    requires
        k < unvisited_count(visited@),
    ensures
        is_nth_unvisited(visited@, k as nat, index as int),
{
    let mut seen: usize = 0;
    let mut i: usize = 0;
    loop
        invariant
            i <= visited.len(),
            seen <= k,
            seen == unvisited_count(visited@.take(i as int)),
            k < unvisited_count(visited@),
        decreases visited.len() - i,
    {
        if i == visited.len() {
            assert(visited@.take(i as int) =~= visited@);
        }
        if !visited[i] {
            if seen == k {
                return i;
            }
            seen += 1;
        }
        proof {
            lemma_unvisited_count_step(visited@, i as int);
        }
        i += 1;
    }
}

/// Appending an album or a playlist of `n` tracks with `flatten` set makes
/// the queue longer by exactly `n`: what was there stays in place, and the
/// new entries are the tracks, one each, in source order.
pub proof fn lemma_append_flattened(queue: QueueState, item: QueueItem)
    requires
        item.is_compound(),
    ensures
        queue.appended(item, true).items.len() == queue.items.len() + item.tracks().len(),
        forall|i: int|
            0 <= i < queue.items.len() ==> queue.appended(item, true).items[i] == queue.items[i],
        forall|i: int|
            0 <= i < item.tracks().len() ==> #[trigger] queue.appended(
                item,
                true,
            ).items[queue.items.len() + i] == QueueItem::Track(item.tracks()[i]),
{
}

/// Appending without `flatten`, or appending a single track, makes the queue
/// longer by one entry, the item itself, unless the item has no track.
pub proof fn lemma_append_whole(queue: QueueState, item: QueueItem, flatten: bool)
    requires
        !flatten || !item.is_compound(),
        item.tracks().len() > 0,
    ensures
        queue.appended(item, flatten).items == queue.items.push(item),
{
    assert(queue.items + seq![item] =~= queue.items.push(item));
}

/// Appending keeps a queue well formed, and keeps the current track of a
/// queue that has one.
pub proof fn lemma_append_keeps_current(queue: QueueState, item: QueueItem, flatten: bool)
    requires
        queue.wf(),
    ensures
        queue.appended(item, flatten).wf(),
        queue.cursor is Some ==> queue.appended(item, flatten).current() == queue.current(),
{
    let after = queue.appended(item, flatten);
    let added = item.entries(flatten);
    assert forall|i: int| 0 <= i < after.items.len() implies (#[trigger] after.items[i]).tracks().len()
        > 0 by {
        if i >= queue.items.len() {
            assert(after.items[i] == added[i - queue.items.len()]);
        }
    }
}

/// As many steps of the rotation as there are shuffle modes lead back to the
/// mode they started from.
pub proof fn lemma_shuffle_rotation_closed(mode: ShuffleType)
    ensures
        mode.rotated(ShuffleType::COUNT as nat) == mode,
{
    reveal_with_fuel(ShuffleType::rotated, 3);
}

/// `cycle_shuffle`, applied as many times as there are shuffle modes, leaves
/// the queue with the shuffle mode it had; entries, cursor and `repeat` are
/// never touched by it.
pub proof fn lemma_cycle_shuffle_closed(queue: QueueState)
    ensures
        queue.cycled_times(ShuffleType::COUNT as nat).options == queue.options,
        queue.cycled_times(ShuffleType::COUNT as nat).items == queue.items,
        queue.cycled_times(ShuffleType::COUNT as nat).cursor == queue.cursor,
        queue.cycled_times(ShuffleType::COUNT as nat).offset == queue.offset,
{
    reveal_with_fuel(QueueState::cycled_times, 3);
}

/// `advance` keeps a queue well formed, never changes its entries, and moves
/// the cursor exactly when it reports a next track.
pub proof fn lemma_advance_keeps_entries(queue: QueueState)
    requires
        queue.wf(),
    ensures
        queue.advanced().items == queue.items,
        queue.advanced().options == queue.options,
        !queue.has_next() ==> queue.advanced().cursor == queue.cursor && queue.advanced().offset
            == queue.offset,
        queue.cursor is None ==> queue.advanced() == queue,
{
}

/// `advance` keeps a queue well formed.
pub proof fn lemma_advance_keeps_wf(queue: QueueState)
    requires
        queue.wf(),
    ensures
        queue.advanced().wf(),
{
    if queue.cursor is Some && queue.at_entry_end() && queue.options.shuffle_type
        == ShuffleType::Shuffled {
        let played = queue.visited_after_current();
        let left = unvisited_count(played);
        if left > 0 {
            reveal(draw);
            let k = draw(queue.seed, left);
            lemma_nth_unvisited_exists(played, k);
        } else if queue.options.repeat {
            reveal(draw);
        }
    }
}

/// Among the entries there is one with exactly `k` unvisited entries before
/// it that is itself unvisited, for every `k` below the number of unvisited
/// entries.
pub proof fn lemma_nth_unvisited_exists(visited: Seq<bool>, k: nat)
    requires
        k < unvisited_count(visited),
    ensures
        is_nth_unvisited(visited, k, nth_unvisited(visited, k)),
    decreases visited.len(),
{
    let shorter = visited.drop_last();
    let last = visited.len() - 1;
    assert(visited.take(last) =~= shorter);
    if k < unvisited_count(shorter) {
        lemma_nth_unvisited_exists(shorter, k);
        let index = nth_unvisited(shorter, k);
        assert(shorter.take(index) =~= visited.take(index));
        assert(is_nth_unvisited(visited, k, index));
    } else {
        assert(is_nth_unvisited(visited, k, last));
    }
}

/// Marking an unvisited entry as visited leaves one unvisited entry less.
pub proof fn lemma_visit_counts_one(visited: Seq<bool>, index: int)
    requires
        0 <= index < visited.len(),
        !visited[index],
    ensures
        unvisited_count(visited.update(index, true)) + 1 == unvisited_count(visited),
    decreases visited.len(),
{
    let last = visited.len() - 1;
    let after = visited.update(index, true);
    if index == last {
        assert(after.drop_last() =~= visited.drop_last());
    } else {
        lemma_visit_counts_one(visited.drop_last(), index);
        assert(after.drop_last() =~= visited.drop_last().update(index, true));
    }
}

/// A shuffled queue draws only entries that were not played in the epoch,
/// and never the one it leaves: while such entries are left, `advance` at
/// the end of an entry goes to one of them, and the entry that was left
/// counts as played from then on. So an epoch plays every entry once.
pub proof fn lemma_shuffled_draws_unvisited(queue: QueueState)
    requires
        queue.wf(),
        queue.cursor is Some,
        queue.at_entry_end(),
        queue.options.shuffle_type == ShuffleType::Shuffled,
        unvisited_count(queue.visited_after_current()) > 0,
    ensures
        queue.has_next(),
        queue.advanced().cursor is Some,
        queue.advanced().cursor != queue.cursor,
        0 <= queue.advanced().cursor->0 < queue.items.len(),
        !queue.visited[queue.advanced().cursor->0],
        queue.advanced().visited == queue.visited_after_current(),
        queue.advanced().offset == 0,
        unvisited_count(queue.advanced().visited_after_current()) + 1 == unvisited_count(
            queue.visited_after_current(),
        ),
{
    reveal(draw);
    let played = queue.visited_after_current();
    let left = unvisited_count(played);
    let k = draw(queue.seed, left);
    lemma_nth_unvisited_exists(played, k);
    lemma_visit_counts_one(played, nth_unvisited(played, k));
}

} // verus!
