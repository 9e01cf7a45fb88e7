//! The audio callback: the commands it applies and the steps it takes to
//! fill one output buffer.
use crate::playback::clamp_position;
use crate::playback::playback_context::ContextState;
use crate::playback::DaemonState;
use crate::playback::PlaybackDaemon;
use crate::playback::TransportState;
use crate::queue::lemma_advance_keeps_entries;
use crate::queue::lemma_advance_keeps_wf;
use crate::queue::QueueItem;
use vstd::prelude::*;

verus! {

/// A command from the screen to the player.
#[derive(Clone, Debug, PartialEq, Eq)]
pub enum PlaybackAction {
    /// Pause when playing, play when paused.
    PlayPause,
    /// Change the volume by so many thousandths of full scale.
    ChangeVolume(i32),
    /// Skip so many seconds ahead.
    FastForward(u64),
    /// Skip so many seconds back.
    Rewind(u64),
    /// Go to the sample with this number.
    GoTo(u64),
    /// Play this item now, in place of what the queue holds.
    Play(QueueItem),
    /// Play.
    Playing,
    /// Pause.
    Paused,
}

/// What the callback asks of the decoder next, or that it is done.
#[derive(Clone, Debug, PartialEq, Eq)]
pub enum Request {
    /// Open the decoder of this track.
    Open { track: String },
    /// Decode up to `count` samples of the open track, from sample
    /// `position` of the track on, into the buffer from `offset` on.
    Decode { position: u64, offset: usize, count: usize },
    /// The buffer is settled: its first `produced` samples are decoded
    /// sound, to be scaled by the volume; the rest is to be silence.
    Finish { produced: usize },
}

/// What the decoder answers.
#[derive(Clone, Copy, Debug, PartialEq, Eq, Structural)]
pub enum Response {
    /// The track is open and has `length` samples.
    Opened { length: u64 },
    /// The track cannot be opened.
    OpenFailed,
    /// So many samples were decoded into the buffer.
    Decoded { samples: usize },
    /// The track is over, or decoding it failed.
    Ended,
}

/// What a callback waits for.
#[derive(Clone, Copy, Debug, PartialEq, Eq, Structural)]
pub enum Pending {
    /// The answer to an `Open`.
    Open,
    /// The answer to a `Decode`.
    Decode,
    /// Nothing: `Finish` was given.
    Finished,
}

/// The progress of one callback.
pub struct CallbackState {
    /// Samples that the buffer holds.
    pub len: nat,
    /// Samples at the front of the buffer that are decoded.
    pub filled: nat,
    /// Tracks given up in a row without a sample from any of them.
    pub skipped: nat,
    /// How many tracks may be given up in a row before the player stops.
    pub budget: nat,
    pub pending: Pending,
}

impl CallbackState {
    pub open spec fn wf(self) -> bool {
        &&& self.filled <= self.len
        &&& self.skipped <= self.budget
    }
}

/// A player together with the callback it is in, and the request it gave.
pub struct Step {
    pub daemon: DaemonState,
    pub callback: CallbackState,
    pub request: Request,
}

impl DaemonState {
    /// The player with nothing to play: idle, no decoder open, no progress.
    pub open spec fn stopped(self) -> DaemonState {
        DaemonState {
            context: ContextState { played: 0, length: 0, ..self.context },
            state: TransportState::Idle,
            loaded: false,
        }
    }

    /// The player after its decoder was opened on a track of `length`
    /// samples.
    pub open spec fn opened(self, length: u64) -> DaemonState {
        DaemonState {
            context: ContextState { played: 0, length, ..self.context },
            loaded: true,
            ..self
        }
    }

    /// The player after `samples` more samples of its track were played. A
    /// track that turns out longer than it said is as long as what was
    /// played of it.
    pub open spec fn progressed(self, samples: nat) -> DaemonState {
        let played = if self.context.played + samples > u64::MAX {
            u64::MAX
        } else {
            (self.context.played + samples) as u64
        };
        let length = if played > self.context.length {
            played
        } else {
            self.context.length
        };
        DaemonState { context: ContextState { played, length, ..self.context }, ..self }
    }

    /// The player after its track ended, or failed, inside a callback that
    /// has already given up `skipped` tracks in a row: it goes on with the
    /// track that the queue has next, and stops when there is none or when
    /// `budget` is used up.
    pub open spec fn track_over(self, skipped: nat, budget: nat) -> DaemonState {
        if skipped >= budget {
            self.stopped()
        } else {
            let next = DaemonState {
                context: ContextState {
                    queue: self.context.queue.advanced(),
                    played: 0,
                    length: 0,
                    ..self.context
                },
                loaded: false,
                ..self
            };
            if self.context.queue.has_next() {
                next
            } else {
                next.stopped()
            }
        }
    }

    /// What the callback does next: it stops a player whose queue has no
    /// current track; it finishes when the buffer is full or the player does
    /// not play; else it has the current track opened, or decoded from where
    /// the player stands into what is left of the buffer.
    pub open spec fn decided(self, callback: CallbackState) -> Step {
        if self.context.queue.current() is None {
            Step {
                daemon: self.stopped(),
                callback: CallbackState { pending: Pending::Finished, ..callback },
                request: Request::Finish { produced: callback.filled as usize },
            }
        } else if self.state != TransportState::Playing || callback.filled >= callback.len {
            Step {
                daemon: self,
                callback: CallbackState { pending: Pending::Finished, ..callback },
                request: Request::Finish { produced: callback.filled as usize },
            }
        } else if !self.loaded {
            Step {
                daemon: self,
                callback: CallbackState { pending: Pending::Open, ..callback },
                request: Request::Open { track: self.context.queue.current()->0 },
            }
        } else {
            Step {
                daemon: self,
                callback: CallbackState { pending: Pending::Decode, ..callback },
                request: Request::Decode {
                    position: self.context.played,
                    offset: callback.filled as usize,
                    count: (callback.len - callback.filled) as usize,
                },
            }
        }
    }

    /// The start of a callback on a buffer of `len` samples.
    pub open spec fn begun(self, len: nat) -> Step {
        self.decided(
            CallbackState {
                len,
                filled: 0,
                skipped: 0,
                budget: self.context.queue.items.len(),
                pending: Pending::Finished,
            },
        )
    }

    /// The player and its callback after a track was given up.
    pub open spec fn skipping(self, callback: CallbackState) -> (DaemonState, CallbackState) {
        (
            self.track_over(callback.skipped, callback.budget),
            CallbackState {
                skipped: if callback.skipped < callback.budget {
                    callback.skipped + 1
                } else {
                    callback.skipped
                },
                ..callback
            },
        )
    }

    /// The player and its callback after the decoder's answer. An answer
    /// that does not fit what was asked, as after a command in the middle of
    /// a callback, is let pass. A track that opens is loaded, one that does
    /// not is given up; decoded samples, as many as were asked for at most,
    /// count as played, and no sample or an end gives the track up.
    pub open spec fn absorbed(self, callback: CallbackState, response: Response) -> (
        DaemonState,
        CallbackState,
    ) {
        match callback.pending {
            Pending::Finished => (self, callback),
            Pending::Open => if self.loaded {
                (self, callback)
            } else {
                match response {
                    Response::Opened { length } => (self.opened(length), callback),
                    _ => self.skipping(callback),
                }
            },
            Pending::Decode => if !self.loaded {
                (self, callback)
            } else {
                match response {
                    Response::Decoded { samples } if samples > 0 => {
                        let room = callback.len - callback.filled;
                        let taken = if samples <= room {
                            samples as nat
                        } else {
                            room as nat
                        };
                        (
                            self.progressed(taken),
                            CallbackState {
                                filled: callback.filled + taken,
                                skipped: 0,
                                ..callback
                            },
                        )
                    },
                    _ => self.skipping(callback),
                }
            },
        }
    }

    /// One step of a callback: the answer is taken in, and the next request
    /// decided.
    pub open spec fn resumed(self, callback: CallbackState, response: Response) -> Step {
        let (daemon, callback) = self.absorbed(callback, response);
        daemon.decided(callback)
    }
}

/// The progress of one callback: how much of the buffer is decoded, and what
/// the callback waits for.
#[derive(Debug)]
pub struct Callback {
    len: usize,
    filled: usize,
    skipped: usize,
    budget: usize,
    pending: Pending,
}

impl View for Callback {
    type V = CallbackState;

    closed spec fn view(&self) -> CallbackState {
        CallbackState {
            len: self.len as nat,
            filled: self.filled as nat,
            skipped: self.skipped as nat,
            budget: self.budget as nat,
            pending: self.pending,
        }
    }
}

impl Callback {
    /// The invariant: no more is decoded than the buffer holds.
    pub open spec fn wf(&self) -> bool {
        self@.wf()
    }

    /// Samples that the buffer holds.
    pub fn len(&self) -> (len: usize)
        ensures
            len == self@.len,
    {
        self.len
    }

    /// Samples at the front of the buffer that are decoded.
    pub fn filled(&self) -> (filled: usize)
        ensures
            filled == self@.filled,
    {
        self.filled
    }

    /// Whether `Finish` was given.
    pub fn is_finished(&self) -> (finished: bool)
        ensures
            finished == (self@.pending == Pending::Finished),
    {
        matches!(self.pending, Pending::Finished)
    }
}

impl PlaybackDaemon {
    /// Stops the player: see `DaemonState::stopped`.
    fn stop(&mut self)
        requires
            old(self).wf(),
        ensures
            final(self).wf(),
            final(self)@ == old(self)@.stopped(),
    {
        self.playback_context_mut().set_progress(0, 0);
        self.set_loaded(false);
        self.set_state(TransportState::Idle);
    }

    /// Decides the next request: see `DaemonState::decided`.
    fn decide(&mut self, callback: &mut Callback) -> (request: Request)
        requires
            old(self).wf(),
            old(callback).wf(),
        ensures
            final(self).wf(),
            final(callback).wf(),
            (Step { daemon: final(self)@, callback: final(callback)@, request }) == old(
                self,
            )@.decided(old(callback)@),
    {
        let current = match self.get_playback_context().queue().current_track() {
            None => None,
            Some(track) => Some(track.clone()),
        };
        match current {
            None => {
                self.stop();
                callback.pending = Pending::Finished;
                Request::Finish { produced: callback.filled }
            },
            Some(track) => {
                if !matches!(self.state(), TransportState::Playing) || callback.filled
                    >= callback.len {
                    callback.pending = Pending::Finished;
                    Request::Finish { produced: callback.filled }
                } else if !self.is_loaded() {
                    callback.pending = Pending::Open;
                    Request::Open { track }
                } else {
                    callback.pending = Pending::Decode;
                    Request::Decode {
                        position: self.get_playback_context().played(),
                        offset: callback.filled,
                        count: callback.len - callback.filled,
                    }
                }
            },
        }
    }

    /// Gives the current track up: see `DaemonState::skipping`.
    fn skip(&mut self, callback: &mut Callback)
        requires
            old(self).wf(),
            old(callback).wf(),
        ensures
            final(self).wf(),
            final(callback).wf(),
            (final(self)@, final(callback)@) == old(self)@.skipping(old(callback)@),
    {
        if callback.skipped >= callback.budget {
            self.stop();
        } else {
            callback.skipped = callback.skipped + 1;
            let moved = self.playback_context_mut().lock_queue().advance();
            self.playback_context_mut().set_progress(0, 0);
            self.set_loaded(false);
            if !moved {
                self.set_state(TransportState::Idle);
            }
        }
    }

    /// Counts `samples` decoded samples as played: see
    /// `DaemonState::progressed`.
    fn progress(&mut self, samples: usize)
        requires
            old(self).wf(),
            old(self)@.loaded,
        ensures
            final(self).wf(),
            final(self)@ == old(self)@.progressed(samples as nat),
    {
        let played = self.get_playback_context().played().saturating_add(samples as u64);
        let length = self.get_playback_context().length();
        let length = if played > length {
            played
        } else {
            length
        };
        self.playback_context_mut().set_progress(played, length);
    }

    /// Takes the decoder's answer in: see `DaemonState::absorbed`.
    fn absorb(&mut self, callback: &mut Callback, response: Response)
        requires
            old(self).wf(),
            old(callback).wf(),
        ensures
            final(self).wf(),
            final(callback).wf(),
            (final(self)@, final(callback)@) == old(self)@.absorbed(old(callback)@, response),
    {
        match callback.pending {
            Pending::Finished => {},
            Pending::Open => {
                if !self.is_loaded() {
                    match response {
                        Response::Opened { length } => {
                            self.playback_context_mut().set_progress(0, length);
                            self.set_loaded(true);
                        },
                        _ => {
                            self.skip(callback);
                        },
                    }
                }
            },
            Pending::Decode => {
                if self.is_loaded() {
                    match response {
                        Response::Decoded { samples } if samples > 0 => {
                            let room = callback.len - callback.filled;
                            let taken = if samples <= room {
                                samples
                            } else {
                                room
                            };
                            self.progress(taken);
                            callback.filled = callback.filled + taken;
                            callback.skipped = 0;
                        },
                        _ => {
                            self.skip(callback);
                        },
                    }
                }
            },
        }
    }

    /// Starts a callback on a buffer of `len` samples, after the pending
    /// commands were applied, and gives its first request.
    pub fn begin(&mut self, len: usize) -> (started: (Callback, Request))
        requires
            old(self).wf(),
        ensures
            final(self).wf(),
            started.0.wf(),
            (Step { daemon: final(self)@, callback: started.0@, request: started.1 }) == old(
                self,
            )@.begun(len as nat),
    {
        let mut callback = Callback {
            len,
            filled: 0,
            skipped: 0,
            budget: self.get_playback_context().queue().len(),
            pending: Pending::Finished,
        };
        let request = self.decide(&mut callback);
        (callback, request)
    }

    /// Goes on with a callback: takes the decoder's answer to the last
    /// request in, and gives the next request. After `Finish` nothing
    /// changes any more.
    pub fn resume(&mut self, callback: &mut Callback, response: Response) -> (request: Request)
        requires
            old(self).wf(),
            old(callback).wf(),
        ensures
            final(self).wf(),
            final(callback).wf(),
            (Step { daemon: final(self)@, callback: final(callback)@, request }) == old(
                self,
            )@.resumed(old(callback)@, response),
    {
        self.absorb(callback, response);
        self.decide(callback)
    }
}

/// Whether a callback waits for what the player's state calls for: for an
/// opened track only while none is open, for samples only while one is open
/// and the buffer has room.
pub open spec fn consistent(daemon: DaemonState, callback: CallbackState) -> bool {
    match callback.pending {
        Pending::Open => !daemon.loaded,
        Pending::Decode => daemon.loaded && callback.filled < callback.len,
        Pending::Finished => true,
    }
}

/// A bound on the answers that a callback can still take before it gives
/// `Finish`.
pub open spec fn steps_left(daemon: DaemonState, callback: CallbackState) -> nat {
    if callback.pending == Pending::Finished {
        0
    } else {
        let room = callback.len - callback.filled;
        let patience = callback.budget - callback.skipped;
        ((room * (callback.budget + 1) + patience) * 2 + if daemon.loaded {
            1int
        } else {
            2int
        }) as nat
    }
}

/// A callback starts out well formed and consistent with its player.
pub proof fn lemma_begin_is_consistent(daemon: DaemonState, len: nat)
    requires
        daemon.wf(),
    ensures
        daemon.begun(len).daemon.wf(),
        daemon.begun(len).callback.wf(),
        consistent(daemon.begun(len).daemon, daemon.begun(len).callback),
        daemon.begun(len).callback.len == len,
        daemon.begun(len).callback.filled == 0,
{
}

/// A callback never stalls: whatever the decoder answers, a step keeps
/// player and callback well formed and consistent, and leaves strictly fewer
/// steps to take. So every callback reaches `Finish`, even when every track
/// of a repeating queue fails.
pub proof fn lemma_step_makes_progress(
    daemon: DaemonState,
    callback: CallbackState,
    response: Response,
)
    requires
        daemon.wf(),
        callback.wf(),
        consistent(daemon, callback),
        callback.pending != Pending::Finished,
    ensures
        daemon.resumed(callback, response).daemon.wf(),
        daemon.resumed(callback, response).callback.wf(),
        consistent(
            daemon.resumed(callback, response).daemon,
            daemon.resumed(callback, response).callback,
        ),
        steps_left(
            daemon.resumed(callback, response).daemon,
            daemon.resumed(callback, response).callback,
        ) < steps_left(daemon, callback),
{
    let (d, c) = daemon.absorbed(callback, response);
    lemma_advance_keeps_entries(daemon.context.queue);
    lemma_advance_keeps_wf(daemon.context.queue);
    let budget = callback.budget as int;
    let room = callback.len - callback.filled;
    let room_after = c.len - c.filled;
    assert(d.wf());
    assert(c.wf());
    if c.filled > callback.filled {
        let taken = c.filled - callback.filled;
        assert(room_after * (budget + 1) + budget < room * (budget + 1) + (budget
            - callback.skipped)) by (nonlinear_arith)
            requires
                room_after == room - taken,
                taken >= 1,
                0 <= callback.skipped <= budget,
                room_after >= 0,
        ;
    }
}

/// In an empty queue every callback settles its whole buffer as silence at
/// once, and leaves the player idle with a track length of 0.
pub proof fn lemma_empty_queue_is_silent(daemon: DaemonState, len: nat)
    requires
        daemon.wf(),
        daemon.context.queue.items.len() == 0,
        len <= usize::MAX,
    ensures
        daemon.begun(len).request == (Request::Finish { produced: 0 }),
        daemon.begun(len).daemon.context.length == 0,
        daemon.begun(len).daemon.context.played == 0,
        daemon.begun(len).daemon.state == TransportState::Idle,
        daemon.begun(len).daemon.context.queue == daemon.context.queue,
{
}

/// A player that does not play settles the whole buffer as silence at once,
/// and keeps its position.
pub proof fn lemma_not_playing_is_silent(daemon: DaemonState, len: nat)
    requires
        daemon.wf(),
        daemon.state != TransportState::Playing,
    ensures
        daemon.begun(len).request == (Request::Finish { produced: 0 }),
        daemon.context.queue.current() is Some ==> daemon.begun(len).daemon == daemon,
{
}

/// Whenever samples are asked for, they are asked for from where the player
/// stands in its track, and into the buffer right behind what is already
/// decoded, up to its end: a track that follows another inside one buffer
/// follows it without a gap.
pub proof fn lemma_decode_leaves_no_gap(daemon: DaemonState, callback: CallbackState)
    requires
        callback.wf(),
        callback.len <= usize::MAX,
    ensures
        match daemon.decided(callback).request {
            Request::Decode { position, offset, count } => {
                &&& position == daemon.context.played
                &&& offset == callback.filled
                &&& offset + count == callback.len
                &&& count > 0
            },
            Request::Open { track } => daemon.context.queue.current() == Some(track),
            Request::Finish { produced } => produced == callback.filled,
        },
{
}

/// After `GoTo`, the next callback of a playing player with an open track
/// decodes from the position that `GoTo` set.
pub proof fn lemma_go_to_then_decode(daemon: DaemonState, offset: u64, len: nat)
    requires
        daemon.wf(),
        daemon.state == TransportState::Playing,
        daemon.loaded,
        daemon.context.queue.current() is Some,
        0 < len <= usize::MAX,
    ensures
        daemon.applied(PlaybackAction::GoTo(offset)).begun(len).request == (Request::Decode {
            position: clamp_position(offset as int, daemon.context.length),
            offset: 0,
            count: len as usize,
        }),
{
}

} // verus!
