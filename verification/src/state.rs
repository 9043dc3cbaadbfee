//! The shared playback state and the volume control.
//!
//! The state is four independent scalars. The volume belongs to the consumer
//! of rotation events; the playing flag, the progress and the track index
//! belong to the audio feed engine.

use crate::encoder::EncoderDirection;
use vstd::prelude::*;

verus! {

/// By how much one rotation event changes the volume.
pub const VOLUME_STEP: u8 = 5;

/// The loudest volume.
pub const MAX_VOLUME: u8 = 100;

/// The volume after power-on.
pub const DEFAULT_VOLUME: u8 = 50;

/// The volume after one rotation event: one step up or down, saturating at
/// the ends of the range.
pub open spec fn stepped_volume(volume: int, direction: EncoderDirection) -> int {
    match direction {
        EncoderDirection::Clockwise => if volume + VOLUME_STEP >= MAX_VOLUME {
            MAX_VOLUME as int
        } else {
            volume + VOLUME_STEP
        },
        EncoderDirection::CounterClockwise => if volume - VOLUME_STEP <= 0 {
            0
        } else {
            volume - VOLUME_STEP
        },
    }
}

/// The volume after the rotation events `events`, applied in the order in
/// which they were delivered.
pub open spec fn volume_after(volume: int, events: Seq<EncoderDirection>) -> int
    decreases events.len(),
{
    if events.len() == 0 {
        volume
    } else {
        stepped_volume(volume_after(volume, events.drop_last()), events.last())
    }
}

/// A run of `count` rotation events in one direction.
pub open spec fn run_of(direction: EncoderDirection, count: nat) -> Seq<EncoderDirection> {
    Seq::new(count, |i: int| direction)
}

/// A volume in range stays in range whatever events arrive.
pub proof fn volume_stays_in_range(volume: int, events: Seq<EncoderDirection>)
    requires
        0 <= volume <= MAX_VOLUME,
    ensures
        0 <= volume_after(volume, events) <= MAX_VOLUME,
    decreases events.len(),
{
    if events.len() > 0 {
        volume_stays_in_range(volume, events.drop_last());
    }
}

/// After `count` clockwise events the volume is `volume + 5 * count`, capped
/// at 100.
pub proof fn clockwise_run_saturates(volume: int, count: nat)
    requires
        0 <= volume <= MAX_VOLUME,
    ensures
        volume_after(volume, run_of(EncoderDirection::Clockwise, count)) == if volume + 5 * count
            >= 100 {
            100
        } else {
            volume + 5 * count
        },
    decreases count,
{
    if count > 0 {
        let shorter = (count - 1) as nat;
        clockwise_run_saturates(volume, shorter);
        assert(run_of(EncoderDirection::Clockwise, count).drop_last() =~= run_of(
            EncoderDirection::Clockwise,
            shorter,
        ));
    }
}

/// After `count` counter-clockwise events the volume is `volume - 5 * count`,
/// floored at 0.
pub proof fn counter_clockwise_run_saturates(volume: int, count: nat)
    requires
        0 <= volume <= MAX_VOLUME,
    ensures
        volume_after(volume, run_of(EncoderDirection::CounterClockwise, count)) == if volume - 5
            * count <= 0 {
            0
        } else {
            volume - 5 * count
        },
    decreases count,
{
    if count > 0 {
        let shorter = (count - 1) as nat;
        counter_clockwise_run_saturates(volume, shorter);
        assert(run_of(EncoderDirection::CounterClockwise, count).drop_last() =~= run_of(
            EncoderDirection::CounterClockwise,
            shorter,
        ));
    }
}

/// The volume after one rotation event.
pub fn adjust_volume(volume: u8, direction: EncoderDirection) -> (adjusted: u8)
    ensures
        adjusted == stepped_volume(volume as int, direction),
{
    match direction {
        EncoderDirection::Clockwise => {
            if volume >= MAX_VOLUME - VOLUME_STEP {
                MAX_VOLUME
            } else {
                volume + VOLUME_STEP
            }
        },
        EncoderDirection::CounterClockwise => {
            if volume <= VOLUME_STEP {
                0
            } else {
                volume - VOLUME_STEP
            }
        },
    }
}

/// The state that the tasks of the player share.
#[derive(Debug, Clone, Copy, PartialEq, Eq, Structural)]
pub struct PlaybackState {
    /// The volume in percent.
    pub volume: u8,
    /// Whether a track is playing.
    pub playing: bool,
    /// How much of the current track has been played, in percent.
    pub progress_percent: u8,
    /// The position of the current track in the catalog.
    pub current_track_index: u8,
}

impl PlaybackState {
    /// Volume and progress are percentages.
    pub open spec fn wf(&self) -> bool {
        &&& self.volume <= MAX_VOLUME
        &&& self.progress_percent <= 100
    }

    /// The state after power-on: default volume, paused at the start of the
    /// first track.
    pub fn new() -> (state: PlaybackState)
        ensures
            state == (PlaybackState {
                volume: DEFAULT_VOLUME,
                playing: false,
                progress_percent: 0,
                current_track_index: 0,
            }),
            state.wf(),
    {
        PlaybackState {
            volume: DEFAULT_VOLUME,
            playing: false,
            progress_percent: 0,
            current_track_index: 0,
        }
    }

    /// The state that four raw fields stand for: a volume or a progress
    /// above 100 percent counts as 100.
    pub fn clamped(
        volume: u8,
        playing: bool,
        progress_percent: u8,
        current_track_index: u8,
    ) -> (state: PlaybackState)
        ensures
            state == (PlaybackState {
                volume: if volume > MAX_VOLUME {
                    MAX_VOLUME
                } else {
                    volume
                },
                playing,
                progress_percent: if progress_percent > 100 {
                    100
                } else {
                    progress_percent
                },
                current_track_index,
            }),
            state.wf(),
    {
        PlaybackState {
            volume: if volume > MAX_VOLUME { MAX_VOLUME } else { volume },
            playing,
            progress_percent: if progress_percent > 100 { 100 } else { progress_percent },
            current_track_index,
        }
    }

    /// Applies one rotation event to the volume and leaves the other fields
    /// alone.
    pub fn apply_rotation(&mut self, direction: EncoderDirection)
        ensures
            *final(self) == (PlaybackState {
                volume: stepped_volume(old(self).volume as int, direction) as u8,
                ..*old(self)
            }),
            final(self).volume == stepped_volume(old(self).volume as int, direction),
            old(self).wf() ==> final(self).wf(),
    {
        self.volume = adjust_volume(self.volume, direction);
    }

    /// Applies a batch of rotation events to the volume, in the order in
    /// which they were delivered, and leaves the other fields alone.
    pub fn apply_rotations(&mut self, events: &[EncoderDirection])
        ensures
            *final(self) == (PlaybackState {
                volume: volume_after(old(self).volume as int, events@) as u8,
                ..*old(self)
            }),
            final(self).volume == volume_after(old(self).volume as int, events@),
            old(self).wf() ==> final(self).wf(),
    {
        let len: usize = events.len();
        let mut i: usize = 0;
        assert(events@.take(0) =~= Seq::<EncoderDirection>::empty());
        while i < len
            invariant
                len == events@.len(),
                i <= len,
                self.volume == volume_after(old(self).volume as int, events@.take(i as int)),
                self.playing == old(self).playing,
                self.progress_percent == old(self).progress_percent,
                self.current_track_index == old(self).current_track_index,
                old(self).wf() ==> self.wf(),
            decreases len - i,
        {
            assert(events@.take(i + 1).drop_last() =~= events@.take(i as int));
            self.apply_rotation(events[i]);
            i = i + 1;
        }
        assert(events@.take(len as int) =~= events@);
    }
}

} // verus!
