//! The player: transport state, volume and position of the current track.
pub mod playback_context;

use crate::playback::playback_context::ContextState;
use crate::playback::playback_context::PlaybackContext;
use crate::playback::playback_context::VOLUME_MAX;
use crate::playback_loop::PlaybackAction;
use crate::queue::lemma_append_keeps_current;
use crate::queue::QueueItem;
use crate::queue::QueueState;
use vstd::prelude::*;

verus! {

/// Whether the player plays.
#[derive(Clone, Copy, Debug, PartialEq, Eq, Structural)]
pub enum TransportState {
    /// Nothing to play: no track was asked for yet, or the queue ran out.
    Idle,
    Playing,
    Paused,
}

/// `level` brought into the range of a volume.
pub open spec fn clamp_volume(level: int) -> u32 {
    if level < 0 {
        0
    } else if level > VOLUME_MAX {
        VOLUME_MAX
    } else {
        level as u32
    }
}

/// `position` brought into a track of `length` samples.
pub open spec fn clamp_position(position: int, length: u64) -> u64 {
    if position < 0 {
        0
    } else if position > length {
        length
    } else {
        position as u64
    }
}

/// The samples that `seconds` seconds hold at `rate` samples per second.
pub open spec fn span(seconds: u64, rate: u64) -> int {
    seconds * rate
}

/// What a player is.
pub struct DaemonState {
    pub context: ContextState,
    pub state: TransportState,
    /// Whether the decoder of the current track is open.
    pub loaded: bool,
}

impl DaemonState {
    pub open spec fn wf(self) -> bool {
        &&& self.context.wf()
        &&& !self.loaded ==> self.context.played == 0 && self.context.length == 0
    }

    /// Whether a track is being played or held: seeking applies only then.
    pub open spec fn is_active(self) -> bool {
        self.state != TransportState::Idle
    }

    /// The player at `position` of the current track, brought into the
    /// track; an idle player stays as it is.
    pub open spec fn sought(self, position: int) -> DaemonState {
        if self.is_active() {
            DaemonState {
                context: ContextState {
                    played: clamp_position(position, self.context.length),
                    ..self.context
                },
                ..self
            }
        } else {
            self
        }
    }

    /// The player with its transport state set.
    pub open spec fn with_state(self, state: TransportState) -> DaemonState {
        DaemonState { state, ..self }
    }

    /// The player after play/pause was pressed.
    pub open spec fn toggled(self) -> DaemonState {
        match self.state {
            TransportState::Idle => self,
            TransportState::Playing => self.with_state(TransportState::Paused),
            TransportState::Paused => self.with_state(TransportState::Playing),
        }
    }

    /// The player with its volume changed by `delta`, held inside the range.
    pub open spec fn with_volume_change(self, delta: int) -> DaemonState {
        DaemonState {
            context: ContextState {
                volume_level: clamp_volume(self.context.volume_level + delta),
                ..self.context
            },
            ..self
        }
    }

    /// The player that was told to play `item`: the queue holds the item
    /// alone, no decoder is open yet, and the state is `Playing`.
    pub open spec fn playing_item(self, item: QueueItem) -> DaemonState {
        DaemonState {
            context: ContextState {
                queue: self.context.queue.replaced(item),
                played: 0,
                length: 0,
                ..self.context
            },
            state: TransportState::Playing,
            loaded: false,
        }
    }

    /// The player after `action`.
    pub open spec fn applied(self, action: PlaybackAction) -> DaemonState {
        match action {
            PlaybackAction::PlayPause => self.toggled(),
            PlaybackAction::ChangeVolume(delta) => self.with_volume_change(delta as int),
            PlaybackAction::FastForward(seconds) => self.sought(
                self.context.played + span(seconds, self.context.sample_rate),
            ),
            PlaybackAction::Rewind(seconds) => self.sought(
                self.context.played - span(seconds, self.context.sample_rate),
            ),
            PlaybackAction::GoTo(offset) => self.sought(offset as int),
            PlaybackAction::Play(item) => self.playing_item(item),
            PlaybackAction::Playing => self.with_state(TransportState::Playing),
            PlaybackAction::Paused => self.with_state(TransportState::Paused),
        }
    }

    /// The player after the actions of `actions`, first to last.
    pub open spec fn applied_all(self, actions: Seq<PlaybackAction>) -> DaemonState
        decreases actions.len(),
    {
        if actions.len() == 0 {
            self
        } else {
            self.applied(actions[0]).applied_all(actions.drop_first())
        }
    }
}

/// The player. It lives on the audio side; the screen reaches the queue and
/// the counters through its context.
#[derive(Debug)]
pub struct PlaybackDaemon {
    context: PlaybackContext,
    state: TransportState,
    loaded: bool,
}

impl View for PlaybackDaemon {
    type V = DaemonState;

    closed spec fn view(&self) -> DaemonState {
        DaemonState { context: self.context@, state: self.state, loaded: self.loaded }
    }
}

impl PlaybackDaemon {
    /// The invariant: a well-formed context, and no progress without a track.
    pub open spec fn wf(&self) -> bool {
        self@.wf()
    }

    /// An idle player with an empty queue and full volume.
    pub fn new(sample_rate: u64) -> (daemon: PlaybackDaemon)
        ensures
            daemon.wf(),
            daemon@ == (DaemonState {
                context: PlaybackContext::new_state(sample_rate),
                state: TransportState::Idle,
                loaded: false,
            }),
    {
        PlaybackDaemon {
            context: PlaybackContext::new(sample_rate),
            state: TransportState::Idle,
            loaded: false,
        }
    }

    /// A player that starts out playing `item`.
    pub fn with_track(sample_rate: u64, item: QueueItem) -> (daemon: PlaybackDaemon)
        ensures
            daemon.wf(),
            daemon@ == (DaemonState {
                context: PlaybackContext::new_state(sample_rate),
                state: TransportState::Idle,
                loaded: false,
            }).playing_item(item),
    {
        let mut daemon = PlaybackDaemon::new(sample_rate);
        daemon.play(item);
        daemon
    }

    /// The queue and the counters, to read.
    pub fn get_playback_context(&self) -> (context: &PlaybackContext)
        ensures
            context@ == self@.context,
    {
        &self.context
    }

    /// The queue and the counters, to change the queue.
    pub fn playback_context_mut(&mut self) -> (context: &mut PlaybackContext)
        ensures
            context@ == old(self)@.context,
            final(self)@ == (DaemonState { context: final(context)@, ..old(self)@ }),
    {
        &mut self.context
    }

    /// The transport state.
    pub fn state(&self) -> (state: TransportState)
        ensures
            state == self@.state,
    {
        self.state
    }

    /// Whether the decoder of the current track is open.
    pub fn is_loaded(&self) -> (loaded: bool)
        ensures
            loaded == self@.loaded,
    {
        self.loaded
    }

    /// Sets the volume to `level` thousandths, held inside the range.
    pub fn set_volume(&mut self, level: u32)
        requires
            old(self).wf(),
        ensures
            final(self).wf(),
            final(self)@ == (DaemonState {
                context: ContextState {
                    volume_level: clamp_volume(level as int),
                    ..old(self)@.context
                },
                ..old(self)@
            }),
    {
        let level = if level > VOLUME_MAX {
            VOLUME_MAX
        } else {
            level
        };
        self.context.set_volume_level(level);
    }

    /// Plays `item` now: see `DaemonState::playing_item`.
    pub fn play(&mut self, item: QueueItem)
        requires
            old(self).wf(),
        ensures
            final(self).wf(),
            final(self)@ == old(self)@.playing_item(item),
    {
        self.context.lock_queue().replace_with(item);
        self.context.set_progress(0, 0);
        self.state = TransportState::Playing;
        self.loaded = false;
    }

    /// Records whether the decoder of the current track is open.
    pub(crate) fn set_loaded(&mut self, loaded: bool)
        ensures
            final(self)@ == (DaemonState { loaded, ..old(self)@ }),
    {
        self.loaded = loaded;
    }

    /// Sets the transport state.
    pub fn set_state(&mut self, state: TransportState)
        ensures
            final(self)@ == old(self)@.with_state(state),
    {
        self.state = state;
    }

    /// Pauses a playing player and resumes a paused one.
    pub fn play_pause(&mut self)
        ensures
            final(self)@ == old(self)@.toggled(),
    {
        match self.state {
            TransportState::Idle => {},
            TransportState::Playing => {
                self.state = TransportState::Paused;
            },
            TransportState::Paused => {
                self.state = TransportState::Playing;
            },
        }
    }

    /// Changes the volume by `delta` thousandths, held inside the range.
    pub fn change_volume(&mut self, delta: i32)
        requires
            old(self).wf(),
        ensures
            final(self).wf(),
            final(self)@ == old(self)@.with_volume_change(delta as int),
    {
        let level: i64 = self.context.volume_level() as i64 + delta as i64;
        let level: u32 = if level < 0 {
            0
        } else if level > VOLUME_MAX as i64 {
            VOLUME_MAX
        } else {
            level as u32
        };
        self.context.set_volume_level(level);
    }

    /// Moves to sample `offset` of the current track, or to its end if the
    /// track is shorter. An idle player stays as it is.
    pub fn go_to(&mut self, offset: u64)
        requires
            old(self).wf(),
        ensures
            final(self).wf(),
            final(self)@ == old(self)@.sought(offset as int),
    {
        if !matches!(self.state, TransportState::Idle) {
            let length = self.context.length();
            let played = if offset > length {
                length
            } else {
                offset
            };
            self.context.set_progress(played, length);
        }
    }

    /// Skips `seconds` seconds ahead, to the end of the track at most.
    pub fn fast_forward(&mut self, seconds: u64)
        requires
            old(self).wf(),
        ensures
            final(self).wf(),
            final(self)@ == old(self)@.sought(
                old(self)@.context.played + span(seconds, old(self)@.context.sample_rate),
            ),
    {
        let length = self.context.length();
        let target = match seconds.checked_mul(self.context.sample_rate()) {
            None => length,
            Some(samples) => match self.context.played().checked_add(samples) {
                None => length,
                Some(position) => position,
            },
        };
        self.go_to(target);
    }

    /// Skips `seconds` seconds back, to the start of the track at most.
    pub fn rewind(&mut self, seconds: u64)
        requires
            old(self).wf(),
        ensures
            final(self).wf(),
            final(self)@ == old(self)@.sought(
                old(self)@.context.played - span(seconds, old(self)@.context.sample_rate),
            ),
    {
        let target = match seconds.checked_mul(self.context.sample_rate()) {
            None => 0,
            Some(samples) => self.context.played().saturating_sub(samples),
        };
        self.go_to(target);
    }

    /// Applies one command.
    pub fn apply(&mut self, action: PlaybackAction)
        requires
            old(self).wf(),
        ensures
            final(self).wf(),
            final(self)@ == old(self)@.applied(action),
    {
        match action {
            PlaybackAction::PlayPause => self.play_pause(),
            PlaybackAction::ChangeVolume(delta) => self.change_volume(delta),
            PlaybackAction::FastForward(seconds) => self.fast_forward(seconds),
            PlaybackAction::Rewind(seconds) => self.rewind(seconds),
            PlaybackAction::GoTo(offset) => self.go_to(offset),
            PlaybackAction::Play(item) => self.play(item),
            PlaybackAction::Playing => self.set_state(TransportState::Playing),
            PlaybackAction::Paused => self.set_state(TransportState::Paused),
        }
    }
}

/// No action takes a player out of its invariant.
pub proof fn lemma_apply_keeps_wf(daemon: DaemonState, action: PlaybackAction)
    requires
        daemon.wf(),
    ensures
        daemon.applied(action).wf(),
{
    if let PlaybackAction::Play(item) = action {
        lemma_append_keeps_current(
            QueueState::empty(daemon.context.queue.options, daemon.context.queue.seed),
            item,
            item.flattened(),
        );
    }
}

/// Whatever actions are applied, in whatever order, the volume stays inside
/// `0..=VOLUME_MAX`, and the player inside its invariant.
pub proof fn lemma_volume_stays_in_range(daemon: DaemonState, actions: Seq<PlaybackAction>)
    requires
        daemon.wf(),
    ensures
        daemon.applied_all(actions).wf(),
        0 <= daemon.applied_all(actions).context.volume_level <= VOLUME_MAX,
    decreases actions.len(),
{
    if actions.len() > 0 {
        lemma_apply_keeps_wf(daemon, actions[0]);
        lemma_volume_stays_in_range(daemon.applied(actions[0]), actions.drop_first());
    }
}

/// A change of volume moves the level by `delta` exactly, unless that would
/// leave the range, and then to the end of the range on that side.
pub proof fn lemma_change_volume(daemon: DaemonState, delta: i32)
    requires
        daemon.wf(),
    ensures
        ({
            let before = daemon.context.volume_level as int;
            let after = daemon.applied(PlaybackAction::ChangeVolume(delta)).context.volume_level as int;
            &&& 0 <= before + delta <= VOLUME_MAX ==> after == before + delta
            &&& before + delta < 0 ==> after == 0
            &&& before + delta > VOLUME_MAX ==> after == VOLUME_MAX
        }),
{
}

/// Play/pause pressed twice leaves the player exactly as it was: the same
/// transport state, the same position, the same queue.
pub proof fn lemma_play_pause_twice(daemon: DaemonState)
    ensures
        daemon.applied(PlaybackAction::PlayPause).applied(PlaybackAction::PlayPause) == daemon,
        daemon.is_active() ==> daemon.applied(PlaybackAction::PlayPause).state != daemon.state,
{
}

/// `GoTo` puts a playing or paused player at the offset it names, and at the
/// end of the track where the offset lies beyond it; nothing else changes.
pub proof fn lemma_go_to_sets_position(daemon: DaemonState, offset: u64)
    requires
        daemon.wf(),
        daemon.is_active(),
    ensures
        daemon.applied(PlaybackAction::GoTo(offset)).context.played == if offset
            <= daemon.context.length {
            offset
        } else {
            daemon.context.length
        },
        daemon.applied(PlaybackAction::GoTo(offset)) == (DaemonState {
            context: ContextState {
                played: daemon.applied(PlaybackAction::GoTo(offset)).context.played,
                ..daemon.context
            },
            ..daemon
        }),
{
}

/// Setting a transport state that the player already has changes nothing.
pub proof fn lemma_state_set_idempotent(daemon: DaemonState)
    ensures
        daemon.applied(PlaybackAction::Playing).applied(PlaybackAction::Playing) == daemon.applied(
            PlaybackAction::Playing,
        ),
        daemon.applied(PlaybackAction::Paused).applied(PlaybackAction::Paused) == daemon.applied(
            PlaybackAction::Paused,
        ),
        daemon.state == TransportState::Playing ==> daemon.applied(PlaybackAction::Playing)
            == daemon,
        daemon.state == TransportState::Paused ==> daemon.applied(PlaybackAction::Paused) == daemon,
{
}

} // verus!
