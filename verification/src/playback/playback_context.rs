//! What the screen and the audio side share: the queue, and the counters
//! that say how far playback is.
use crate::queue::Queue;
use crate::queue::QueueOptions;
use crate::queue::QueueState;
use crate::queue::ShuffleType;
use vstd::prelude::*;

verus! {

/// The loudest volume. Volume is counted in thousandths of full scale.
pub const VOLUME_MAX: u32 = 1000;

/// Whole seconds that `samples` samples last at `sample_rate` samples a
/// second; 0 at a rate of 0.
pub open spec fn whole_seconds(samples: u64, sample_rate: u64) -> u64 {
    if sample_rate == 0 {
        0
    } else {
        samples / sample_rate
    }
}

/// Whole seconds that `samples` samples last at `sample_rate` samples a
/// second; 0 at a rate of 0.
pub fn seconds(samples: u64, sample_rate: u64) -> (seconds: u64)
    ensures
        seconds == whole_seconds(samples, sample_rate),
{
    if sample_rate == 0 {
        0
    } else {
        samples / sample_rate
    }
}

/// What a context holds.
pub struct ContextState {
    pub queue: QueueState,
    /// Samples per second of the output stream.
    pub sample_rate: u64,
    /// Samples of the current track that were played.
    pub played: u64,
    /// Samples that the current track has; 0 while none is open.
    pub length: u64,
    /// Thousandths of full scale, `0..=VOLUME_MAX`.
    pub volume_level: u32,
}

impl ContextState {
    pub open spec fn wf(self) -> bool {
        &&& self.queue.wf()
        &&& self.played <= self.length
        &&& self.volume_level <= VOLUME_MAX
    }

    /// Whole seconds that `samples` samples last; 0 at a rate of 0.
    pub open spec fn seconds(self, samples: u64) -> u64 {
        whole_seconds(samples, self.sample_rate)
    }
}

/// The queue and the progress counters of one player.
#[derive(Debug)]
pub struct PlaybackContext {
    queue: Queue,
    sample_rate: u64,
    played: u64,
    length: u64,
    volume_level: u32,
}

impl View for PlaybackContext {
    type V = ContextState;

    closed spec fn view(&self) -> ContextState {
        ContextState {
            queue: self.queue@,
            sample_rate: self.sample_rate,
            played: self.played,
            length: self.length,
            volume_level: self.volume_level,
        }
    }
}

impl PlaybackContext {
    /// The invariant: a well-formed queue, a position inside the track, a
    /// volume inside its range.
    pub open spec fn wf(&self) -> bool {
        self@.wf()
    }

    /// What a new context holds: an empty queue, nothing played, full
    /// volume.
    pub open spec fn new_state(sample_rate: u64) -> ContextState {
        ContextState {
            queue: QueueState::empty(
                QueueOptions { shuffle_type: ShuffleType::Off, repeat: false },
                0,
            ),
            sample_rate,
            played: 0,
            length: 0,
            volume_level: VOLUME_MAX,
        }
    }

    /// A context with an empty queue, nothing played and full volume.
    pub fn new(sample_rate: u64) -> (context: PlaybackContext)
        ensures
            context.wf(),
            context@ == PlaybackContext::new_state(sample_rate),
    {
        PlaybackContext { queue: Queue::new(), sample_rate, played: 0, length: 0, volume_level: VOLUME_MAX }
    }

    /// The queue, to read.
    pub fn queue(&self) -> (queue: &Queue)
        ensures
            queue@ == self@.queue,
    {
        &self.queue
    }

    /// The queue, to change; nothing else of the context changes with it.
    pub fn lock_queue(&mut self) -> (queue: &mut Queue)
        ensures
            queue@ == old(self)@.queue,
            final(self)@ == (ContextState { queue: final(queue)@, ..old(self)@ }),
    {
        &mut self.queue
    }

    /// Samples per second of the output stream.
    pub fn sample_rate(&self) -> (rate: u64)
        ensures
            rate == self@.sample_rate,
    {
        self.sample_rate
    }

    /// Samples of the current track that were played.
    pub fn played(&self) -> (samples: u64)
        ensures
            samples == self@.played,
    {
        self.played
    }

    /// Samples that the current track has.
    pub fn length(&self) -> (samples: u64)
        ensures
            samples == self@.length,
    {
        self.length
    }

    /// Whole seconds of the current track that were played.
    pub fn played_sec(&self) -> (seconds: u64)
        ensures
            seconds == self@.seconds(self@.played),
    {
        seconds(self.played, self.sample_rate)
    }

    /// Whole seconds that the current track lasts.
    pub fn length_sec(&self) -> (seconds: u64)
        ensures
            seconds == self@.seconds(self@.length),
    {
        seconds(self.length, self.sample_rate)
    }

    /// The volume, in thousandths of full scale.
    pub fn volume_level(&self) -> (level: u32)
        ensures
            level == self@.volume_level,
    {
        self.volume_level
    }

    /// Sets position and length of the current track.
    pub(crate) fn set_progress(&mut self, played: u64, length: u64)
        ensures
            final(self)@ == (ContextState { played, length, ..old(self)@ }),
    {
        self.played = played;
        self.length = length;
    }

    /// Sets the volume.
    pub(crate) fn set_volume_level(&mut self, level: u32)
        ensures
            final(self)@ == (ContextState { volume_level: level, ..old(self)@ }),
    {
        self.volume_level = level;
    }
}

} // verus!
