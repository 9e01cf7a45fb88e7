//! The keys that steer the player, whatever tab is up.
use crate::playback::playback_context::ContextState;
use crate::playback::playback_context::PlaybackContext;
use crate::playback_loop::PlaybackAction;
use crate::queue::QueueOptions;
use crate::queue::QueueState;
use crate::settings::input::is_bound;
use crate::settings::input::pressed;
use crate::settings::input::Media;
use ratatui_eventInput::Input;
use vstd::prelude::*;

verus! {

/// How far one press of a volume key moves the volume, in thousandths of
/// full scale.
pub const VOLUME_STEP: i32 = 20;

/// How many seconds one press of a seek key skips.
pub const SEEK_SECONDS: u64 = 5;

/// What a key means to the player.
#[derive(Clone, Copy, Debug, PartialEq, Eq, Structural)]
pub enum MediaKey {
    PlayPause,
    VolumeUp,
    VolumeDown,
    FastForward,
    Rewind,
    Shuffle,
    Repeat,
    Other,
}

/// What `input` means to the player under `media`. Where an input is bound
/// to several of these, the first in this order counts: play/pause, volume
/// up, volume down, forward, rewind, shuffle, repeat.
pub open spec fn media_key(media: Media, input: Input) -> MediaKey {
    if is_bound(media.playpause@, input) {
        MediaKey::PlayPause
    } else if is_bound(media.volume_up@, input) {
        MediaKey::VolumeUp
    } else if is_bound(media.volume_down@, input) {
        MediaKey::VolumeDown
    } else if is_bound(media.fast_forward@, input) {
        MediaKey::FastForward
    } else if is_bound(media.rewind@, input) {
        MediaKey::Rewind
    } else if is_bound(media.shuffle@, input) {
        MediaKey::Shuffle
    } else if is_bound(media.repeat@, input) {
        MediaKey::Repeat
    } else {
        MediaKey::Other
    }
}

/// The command that a key sends to the player; shuffle and repeat send
/// none, they change the queue at once.
pub open spec fn media_action(key: MediaKey) -> Option<PlaybackAction> {
    match key {
        MediaKey::PlayPause => Some(PlaybackAction::PlayPause),
        MediaKey::VolumeUp => Some(PlaybackAction::ChangeVolume(VOLUME_STEP)),
        MediaKey::VolumeDown => Some(PlaybackAction::ChangeVolume((-VOLUME_STEP) as i32)),
        MediaKey::FastForward => Some(PlaybackAction::FastForward(SEEK_SECONDS)),
        MediaKey::Rewind => Some(PlaybackAction::Rewind(SEEK_SECONDS)),
        _ => None,
    }
}

/// The queue after a key: the next shuffle mode on `Shuffle`, repeat
/// switched over on `Repeat`.
pub open spec fn queue_after_media(queue: QueueState, key: MediaKey) -> QueueState {
    match key {
        MediaKey::Shuffle => queue.cycled(),
        MediaKey::Repeat => QueueState {
            options: QueueOptions { repeat: !queue.options.repeat, ..queue.options },
            ..queue
        },
        _ => queue,
    }
}

/// What `input` means to the player under `media`.
pub fn read_media_key(input: &Input, media: &Media) -> (key: MediaKey)
    ensures
        key == media_key(*media, *input),
{
    if pressed(&media.playpause, input) {
        MediaKey::PlayPause
    } else if pressed(&media.volume_up, input) {
        MediaKey::VolumeUp
    } else if pressed(&media.volume_down, input) {
        MediaKey::VolumeDown
    } else if pressed(&media.fast_forward, input) {
        MediaKey::FastForward
    } else if pressed(&media.rewind, input) {
        MediaKey::Rewind
    } else if pressed(&media.shuffle, input) {
        MediaKey::Shuffle
    } else if pressed(&media.repeat, input) {
        MediaKey::Repeat
    } else {
        MediaKey::Other
    }
}

/// Takes a key for the player: changes the queue's policy at once, and
/// gives the command that is to be sent to the player, if any.
pub fn handle_media_key(key: MediaKey, context: &mut PlaybackContext) -> (action: Option<
    PlaybackAction,
>)
    requires
        old(context).wf(),
    ensures
        final(context).wf(),
        action == media_action(key),
        final(context)@ == (ContextState {
            queue: queue_after_media(old(context)@.queue, key),
            ..old(context)@
        }),
{
    match key {
        MediaKey::PlayPause => Some(PlaybackAction::PlayPause),
        MediaKey::VolumeUp => Some(PlaybackAction::ChangeVolume(VOLUME_STEP)),
        MediaKey::VolumeDown => Some(PlaybackAction::ChangeVolume(-VOLUME_STEP)),
        MediaKey::FastForward => Some(PlaybackAction::FastForward(SEEK_SECONDS)),
        MediaKey::Rewind => Some(PlaybackAction::Rewind(SEEK_SECONDS)),
        MediaKey::Shuffle => {
            context.lock_queue().cycle_shuffle();
            None
        },
        MediaKey::Repeat => {
            let repeat = context.queue().repeat();
            context.lock_queue().set_repeat(!repeat);
            None
        },
        MediaKey::Other => None,
    }
}

} // verus!
