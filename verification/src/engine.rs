//! The audio feed engine: the decisions of one cycle of the loop that keeps
//! the circular output buffer full.
//!
//! A cycle has two halves. [`Engine::intake`] absorbs the transport signals
//! that fired since the last cycle, in a fixed order. [`Engine::feed`] then
//! decides, from the free space of the output buffer, what is pushed into it
//! and what is published. The caller owns the buffer and the clock: it hands
//! in what it read from them and carries out the [`Action`] it gets back.

use crate::catalog::{Catalog, Track};
use crate::gain::{apply_gain, scaled_chunk};
use crate::state::{PlaybackState, MAX_VOLUME};
use vstd::prelude::*;
use vstd::slice::slice_subrange;

verus! {

/// The most bytes pushed into the output buffer in one cycle.
pub const CHUNK_SIZE: usize = 512;

/// The free space that the output buffer must exceed before a chunk of the
/// track is pushed.
pub const HIGH_WATER_MARK: usize = 1024;

/// The progress, in percent, above which the previous-track signal restarts
/// the current track.
pub const RESTART_THRESHOLD: u8 = 10;

/// The delay after a cycle that found the engine playing, in milliseconds.
pub const FEED_DELAY_MS: u64 = 5;

/// The delay after a cycle that found the engine paused, in milliseconds.
pub const PAUSE_DELAY_MS: u64 = 10;

/// The time that must have passed since the progress was last published
/// before it is published again, in microseconds.
pub const PROGRESS_INTERVAL_MICROS: u64 = 1_000_000;

/// A transport command.
#[derive(Debug, Clone, Copy, PartialEq, Eq, Structural)]
pub enum TransportSignal {
    TogglePlayPause,
    Next,
    Previous,
}

/// The transport signals that wait for the engine: one slot per kind. A
/// signal raised twice before it is taken waits once.
#[derive(Debug, Clone, Copy, PartialEq, Eq, Structural)]
pub struct Controls {
    pub toggle: bool,
    pub next: bool,
    pub previous: bool,
}

impl Controls {
    /// Whether a signal of this kind waits.
    pub open spec fn pending(self, signal: TransportSignal) -> bool {
        match signal {
            TransportSignal::TogglePlayPause => self.toggle,
            TransportSignal::Next => self.next,
            TransportSignal::Previous => self.previous,
        }
    }

    /// These slots with the slot of one kind set to `waiting`.
    pub open spec fn set(self, signal: TransportSignal, waiting: bool) -> Controls {
        match signal {
            TransportSignal::TogglePlayPause => Controls { toggle: waiting, ..self },
            TransportSignal::Next => Controls { next: waiting, ..self },
            TransportSignal::Previous => Controls { previous: waiting, ..self },
        }
    }

    /// Raising a signal that already waits changes nothing, and a signal that
    /// was taken no longer waits.
    pub proof fn latest_signal_wins(self, signal: TransportSignal)
        ensures
            self.set(signal, true).set(signal, true) == self.set(signal, true),
            self.set(signal, true).pending(signal),
            !self.set(signal, false).pending(signal),
            forall|other: TransportSignal|
                other != signal ==> self.set(signal, true).pending(other) == self.pending(other),
    {
    }

    /// No signal waits.
    pub fn none() -> (controls: Controls)
        ensures
            controls == (Controls { toggle: false, next: false, previous: false }),
    {
        Controls { toggle: false, next: false, previous: false }
    }

    /// Raises a signal. It overwrites one of its kind that still waits.
    pub fn signal(&mut self, signal: TransportSignal)
        ensures
            *final(self) == old(self).set(signal, true),
    {
        match signal {
            TransportSignal::TogglePlayPause => {
                self.toggle = true;
            },
            TransportSignal::Next => {
                self.next = true;
            },
            TransportSignal::Previous => {
                self.previous = true;
            },
        }
    }

    /// Takes the signal of one kind: says whether it waited, and empties its
    /// slot.
    pub fn try_take(&mut self, signal: TransportSignal) -> (fired: bool)
        ensures
            fired == old(self).pending(signal),
            *final(self) == old(self).set(signal, false),
    {
        match signal {
            TransportSignal::TogglePlayPause => {
                let fired = self.toggle;
                self.toggle = false;
                fired
            },
            TransportSignal::Next => {
                let fired = self.next;
                self.next = false;
                fired
            },
            TransportSignal::Previous => {
                let fired = self.previous;
                self.previous = false;
                fired
            },
        }
    }
}

/// Where the engine stands in which track.
#[derive(Debug, Clone, Copy, PartialEq, Eq, Structural)]
pub struct PlaybackCursor {
    /// The position of the loaded track in the catalog.
    pub track_index: u8,
    /// How many bytes of the track have been fed.
    pub byte_offset: usize,
    /// The length of the track in bytes.
    pub total_len: usize,
}

/// `offset * 100 / total`, rounded down.
pub open spec fn percent_of(offset: int, total: int) -> int {
    (offset * 100) / total
}

/// No more than the whole of a track is 100 percent of it.
pub proof fn percent_is_bounded(offset: int, total: int)
    requires
        0 <= offset <= total,
        0 < total,
    ensures
        0 <= percent_of(offset, total) <= 100,
        offset == total ==> percent_of(offset, total) == 100,
        offset == 0 ==> percent_of(offset, total) == 0,
{
    assert(0 <= (offset * 100) / total <= 100) by (nonlinear_arith)
        requires
            0 <= offset <= total,
            0 < total,
    ;
    assert((total * 100) / total == 100) by (nonlinear_arith)
        requires
            0 < total,
    ;
    assert((0int * 100) / total == 0) by (nonlinear_arith)
        requires
            0 < total,
    ;
}

impl PlaybackCursor {
    /// The cursor at the start of a track.
    pub open spec fn at_start_of(track: Track) -> PlaybackCursor {
        PlaybackCursor {
            track_index: track.index,
            byte_offset: 0,
            total_len: track.pcm.len(),
        }
    }

    /// The cursor names a track of the catalog, knows its length, and stands
    /// before its end.
    pub open spec fn wf(&self, catalog: &Catalog) -> bool {
        &&& self.track_index < catalog.count()
        &&& self.total_len == catalog.tracks@[self.track_index as int].pcm@.len()
        &&& self.byte_offset < self.total_len
    }

    /// How much of the track has been fed, in percent.
    pub open spec fn percent(&self) -> int {
        percent_of(self.byte_offset as int, self.total_len as int)
    }

    /// How much of the track has been fed, in percent, rounded down.
    pub fn progress_percent(&self) -> (percent: u8)
        requires
            self.byte_offset <= self.total_len,
            0 < self.total_len,
        ensures
            percent == self.percent(),
            percent <= 100,
    {
        proof {
            percent_is_bounded(self.byte_offset as int, self.total_len as int);
        }
        ((self.byte_offset as u128 * 100) / (self.total_len as u128)) as u8
    }
}

/// Loads a track: the cursor moves to its start, and its index and a
/// progress of zero are published. Volume and playing flag stay.
pub fn load_track(cursor: &mut PlaybackCursor, state: &mut PlaybackState, new_track: &Track)
    ensures
        *final(cursor) == PlaybackCursor::at_start_of(*new_track),
        *final(state) == (PlaybackState {
            current_track_index: new_track.index,
            progress_percent: 0,
            ..*old(state)
        }),
{
    cursor.track_index = new_track.to_index();
    state.current_track_index = cursor.track_index;
    cursor.total_len = new_track.bytes().len();
    cursor.byte_offset = 0;
    state.progress_percent = 0;
}

/// What the caller does to the output buffer at the end of a cycle.
#[derive(Debug)]
pub enum Action {
    /// Push `len` zero bytes, so that no stale audio is heard while paused.
    Silence { len: usize },
    /// Push the chunk.
    Feed { chunk: Vec<u8> },
    /// Push nothing: the buffer has too little room for a chunk.
    Idle,
}

/// An [`Action`] as a mathematical value.
pub enum ActionView {
    Silence { len: nat },
    Feed { chunk: Seq<u8> },
    Idle,
}

impl View for Action {
    type V = ActionView;

    open spec fn view(&self) -> ActionView {
        match *self {
            Action::Silence { len } => ActionView::Silence { len: len as nat },
            Action::Feed { chunk } => ActionView::Feed { chunk: chunk@ },
            Action::Idle => ActionView::Idle,
        }
    }
}

impl ActionView {
    /// The bytes that the action puts into the output buffer.
    pub open spec fn bytes(self) -> Seq<u8> {
        match self {
            ActionView::Silence { len } => Seq::new(len, |i: int| 0u8),
            ActionView::Feed { chunk } => chunk,
            ActionView::Idle => Seq::empty(),
        }
    }

    /// The delay before the next cycle, in milliseconds.
    pub open spec fn delay_ms(self) -> int {
        match self {
            ActionView::Silence { .. } => PAUSE_DELAY_MS as int,
            _ => FEED_DELAY_MS as int,
        }
    }
}

impl Action {
    /// The delay before the next cycle, in milliseconds: the longer one
    /// while paused, the shorter one while playing.
    pub fn delay_ms(&self) -> (millis: u64)
        ensures
            millis == self@.delay_ms(),
    {
        match self {
            Action::Silence { .. } => PAUSE_DELAY_MS,
            _ => FEED_DELAY_MS,
        }
    }
}

/// The smaller of two lengths.
pub open spec fn smaller(a: int, b: int) -> int {
    if a <= b {
        a
    } else {
        b
    }
}

/// The audio feed engine.
#[derive(Debug, Clone, Copy, PartialEq, Eq, Structural)]
pub struct Engine {
    /// The loaded track and the place in it.
    pub cursor: PlaybackCursor,
    /// Whether the engine is playing or paused.
    pub playing: bool,
    /// When the progress was last published, in microseconds.
    pub last_publish: u64,
}

impl Engine {
    /// The catalog is valid and the cursor stands in one of its tracks.
    pub open spec fn wf(&self, catalog: &Catalog) -> bool {
        &&& catalog.wf()
        &&& self.cursor.wf(catalog)
    }

    /// The cursor at the start of the track at `position`.
    pub open spec fn loaded(catalog: &Catalog, position: int) -> PlaybackCursor {
        PlaybackCursor::at_start_of(catalog.tracks@[position])
    }

    /// The position of the track that follows the loaded one.
    pub open spec fn following(self, catalog: &Catalog) -> int {
        catalog.next_position(self.cursor.track_index as int)
    }

    /// The position of the track that precedes the loaded one.
    pub open spec fn preceding(self, catalog: &Catalog) -> int {
        catalog.prev_position(self.cursor.track_index as int)
    }

    /// The engine after the play/pause signal: playing and paused change
    /// places.
    pub open spec fn after_toggle(self, fired: bool) -> Engine {
        if fired {
            Engine { playing: !self.playing, ..self }
        } else {
            self
        }
    }

    /// The engine after the next-track signal: at the start of the following
    /// track, and playing.
    pub open spec fn after_next(self, catalog: &Catalog, fired: bool) -> Engine {
        if fired {
            Engine {
                cursor: Self::loaded(catalog, self.following(catalog)),
                playing: true,
                ..self
            }
        } else {
            self
        }
    }

    /// Whether the previous-track signal restarts the current track: more of
    /// it has been played than the threshold.
    pub open spec fn restarts(self) -> bool {
        self.cursor.percent() > RESTART_THRESHOLD
    }

    /// The engine after the previous-track signal: at the start of the same
    /// track, playing or paused as before, where the signal restarts the
    /// track; at the start of the preceding track, and playing, where it does
    /// not.
    pub open spec fn after_previous(self, catalog: &Catalog, fired: bool) -> Engine {
        if !fired {
            self
        } else if self.restarts() {
            Engine { cursor: PlaybackCursor { byte_offset: 0, ..self.cursor }, ..self }
        } else {
            Engine {
                cursor: Self::loaded(catalog, self.preceding(catalog)),
                playing: true,
                ..self
            }
        }
    }

    /// The engine after the signals of one cycle, absorbed in their fixed
    /// order: play/pause, next, previous.
    pub open spec fn after_intake(self, catalog: &Catalog, controls: Controls) -> Engine {
        self.after_toggle(controls.toggle).after_next(catalog, controls.next).after_previous(
            catalog,
            controls.previous,
        )
    }

    /// Whether the signals of one cycle load a track.
    pub open spec fn switches(self, catalog: &Catalog, controls: Controls) -> bool {
        ||| controls.next
        ||| controls.previous && !self.after_toggle(controls.toggle).after_next(
            catalog,
            controls.next,
        ).restarts()
    }

    /// The shared state after the signals of one cycle: the playing flag is
    /// that of the engine; next and previous reset the progress; a track that
    /// was loaded is published. The volume stays.
    pub open spec fn state_after_intake(
        self,
        catalog: &Catalog,
        state: PlaybackState,
        controls: Controls,
    ) -> PlaybackState {
        let engine = self.after_intake(catalog, controls);
        PlaybackState {
            volume: state.volume,
            playing: engine.playing,
            progress_percent: if controls.next || controls.previous {
                0
            } else {
                state.progress_percent
            },
            current_track_index: if self.switches(catalog, controls) {
                engine.cursor.track_index
            } else {
                state.current_track_index
            },
        }
    }

    /// Whether a cycle pushes a chunk of the track: the engine plays and the
    /// buffer has more room than the high-water mark.
    pub open spec fn feeds(self, available: usize) -> bool {
        self.playing && available > HIGH_WATER_MARK
    }

    /// The length of the chunk that a cycle pushes: the chunk size, or less
    /// where the buffer or the rest of the track is smaller.
    pub open spec fn chunk_len(self, available: usize) -> int {
        smaller(
            smaller(CHUNK_SIZE as int, available as int),
            self.cursor.total_len - self.cursor.byte_offset,
        )
    }

    /// Whether the progress is due for publication at the time `now_micros`:
    /// more than the interval has passed since it was last published. A time
    /// before the last publication counts as no time passed.
    pub open spec fn publishes(self, now_micros: u64) -> bool {
        now_micros - self.last_publish > PROGRESS_INTERVAL_MICROS
    }

    /// Whether the chunk that a cycle pushes is the last of the track.
    pub open spec fn ends(self, available: usize) -> bool {
        self.cursor.byte_offset + self.chunk_len(available) >= self.cursor.total_len
    }

    /// The engine after the second half of a cycle. Where a chunk is pushed
    /// the cursor advances by its length; at the end of the track it returns
    /// to the start and the engine pauses.
    pub open spec fn after_feed(self, available: usize, now_micros: u64) -> Engine {
        if !self.feeds(available) {
            self
        } else {
            Engine {
                cursor: PlaybackCursor {
                    byte_offset: if self.ends(available) {
                        0
                    } else {
                        (self.cursor.byte_offset + self.chunk_len(available)) as usize
                    },
                    ..self.cursor
                },
                playing: !self.ends(available),
                last_publish: if self.publishes(now_micros) {
                    now_micros
                } else {
                    self.last_publish
                },
            }
        }
    }

    /// The shared state after the second half of a cycle. Where a chunk is
    /// pushed and the progress is due, the progress is published; at the end
    /// of the track the state shows a paused engine at zero percent. The
    /// volume and the track index stay.
    pub open spec fn state_after_feed(
        self,
        state: PlaybackState,
        available: usize,
        now_micros: u64,
    ) -> PlaybackState {
        if !self.feeds(available) {
            state
        } else if self.ends(available) {
            PlaybackState { playing: false, progress_percent: 0, ..state }
        } else if self.publishes(now_micros) {
            PlaybackState {
                progress_percent: percent_of(
                    self.cursor.byte_offset + self.chunk_len(available),
                    self.cursor.total_len as int,
                ) as u8,
                ..state
            }
        } else {
            state
        }
    }

    /// What the second half of a cycle does to the output buffer: silence,
    /// no longer than the buffer has room, while paused; the next bytes of
    /// the track, scaled by the volume, while playing with room above the
    /// high-water mark; nothing otherwise.
    pub open spec fn action(self, catalog: &Catalog, volume: u8, available: usize) -> ActionView {
        if !self.playing {
            ActionView::Silence { len: smaller(available as int, CHUNK_SIZE as int) as nat }
        } else if available > HIGH_WATER_MARK {
            ActionView::Feed {
                chunk: scaled_chunk(
                    catalog.tracks@[self.cursor.track_index as int].pcm@.subrange(
                        self.cursor.byte_offset as int,
                        self.cursor.byte_offset + self.chunk_len(available),
                    ),
                    volume as int,
                ),
            }
        } else {
            ActionView::Idle
        }
    }

    /// At exactly the threshold the previous-track signal still loads the
    /// preceding track and starts it; only above the threshold does it
    /// restart the current track, which then plays or stays paused as before.
    pub proof fn previous_threshold_is_exclusive(self, catalog: &Catalog)
        requires
            self.wf(catalog),
        ensures
            self.cursor.percent() <= 10 ==> self.after_previous(catalog, true) == (Engine {
                cursor: Self::loaded(catalog, self.preceding(catalog)),
                playing: true,
                ..self
            }),
            self.cursor.percent() >= 11 ==> self.after_previous(catalog, true) == (Engine {
                cursor: PlaybackCursor { byte_offset: 0, ..self.cursor },
                ..self
            }),
            self.after_previous(catalog, true).cursor.byte_offset == 0,
    {
    }

    /// The next-track signal leaves the engine playing at the start of the
    /// following track, whether it played or paused before, and whatever
    /// else fired in the same cycle leaves it playing.
    pub proof fn next_always_plays(self, catalog: &Catalog, controls: Controls)
        requires
            self.wf(catalog),
            controls.next,
        ensures
            self.after_intake(catalog, controls).playing,
            self.after_intake(catalog, controls).cursor.byte_offset == 0,
            !controls.previous ==> self.after_intake(catalog, controls).cursor.track_index
                == self.following(catalog),
            controls.previous ==> self.after_intake(catalog, controls).cursor.track_index
                == self.cursor.track_index,
    {
        let index = self.cursor.track_index as int;
        catalog.next_position_wraps(index);
        catalog.prev_position_wraps(catalog.next_position(index));
        catalog.next_and_prev_cancel(index);
        let switched = self.after_toggle(controls.toggle).after_next(catalog, true);
        percent_is_bounded(0, switched.cursor.total_len as int);
    }

    /// Whatever a cycle pushes fits the free space of the output buffer and
    /// is no longer than one chunk, and a chunk of the track never reaches
    /// beyond its end.
    pub proof fn action_fits_buffer(self, catalog: &Catalog, volume: u8, available: usize)
        requires
            self.wf(catalog),
        ensures
            self.action(catalog, volume, available).bytes().len() <= available,
            self.action(catalog, volume, available).bytes().len() <= CHUNK_SIZE,
            self.feeds(available) ==> self.action(catalog, volume, available).bytes().len()
                == self.chunk_len(available),
            self.feeds(available) ==> 1 <= self.chunk_len(available) <= self.cursor.total_len
                - self.cursor.byte_offset,
    {
    }

    /// The chunk that ends a track pauses the engine at the start of the
    /// same track and publishes a progress of zero; any other chunk leaves
    /// the engine playing further on in the track.
    pub proof fn end_of_track_pauses(
        self,
        catalog: &Catalog,
        state: PlaybackState,
        available: usize,
        now_micros: u64,
    )
        requires
            self.wf(catalog),
            self.feeds(available),
        ensures
            1 <= self.chunk_len(available) <= CHUNK_SIZE,
            self.after_feed(available, now_micros).cursor.track_index == self.cursor.track_index,
            self.ends(available) ==> {
                &&& !self.after_feed(available, now_micros).playing
                &&& self.after_feed(available, now_micros).cursor.byte_offset == 0
                &&& !self.state_after_feed(state, available, now_micros).playing
                &&& self.state_after_feed(state, available, now_micros).progress_percent == 0
                &&& self.state_after_feed(state, available, now_micros).current_track_index
                    == state.current_track_index
            },
            !self.ends(available) ==> {
                &&& self.after_feed(available, now_micros).playing
                &&& self.after_feed(available, now_micros).cursor.byte_offset
                    == self.cursor.byte_offset + self.chunk_len(available)
            },
    {
    }

    /// The engine as the feed loop starts it: at the start of the track that
    /// the shared state names, or of the default track where it names none,
    /// playing or paused as the shared state says.
    pub fn new(catalog: &Catalog, state: &PlaybackState, now_micros: u64) -> (engine: Engine)
        requires
            catalog.wf(),
        ensures
            engine == (Engine {
                cursor: Self::loaded(catalog, catalog.position(state.current_track_index as int)),
                playing: state.playing,
                last_publish: now_micros,
            }),
            engine.wf(catalog),
    {
        let track = catalog.from_index(state.current_track_index);
        Engine {
            cursor: PlaybackCursor {
                track_index: track.to_index(),
                byte_offset: 0,
                total_len: track.bytes().len(),
            },
            playing: state.playing,
            last_publish: now_micros,
        }
    }

    /// The first half of a cycle: takes the transport signals that wait, in
    /// the order play/pause, next, previous, and publishes the outcome.
    pub fn intake(&mut self, catalog: &Catalog, state: &mut PlaybackState, controls: &mut Controls)
        requires
            old(self).wf(catalog),
        ensures
            *final(self) == old(self).after_intake(catalog, *old(controls)),
            *final(state) == old(self).state_after_intake(catalog, *old(state), *old(controls)),
            *final(controls) == (Controls { toggle: false, next: false, previous: false }),
            final(self).wf(catalog),
            old(state).wf() ==> final(state).wf(),
    {
        if controls.try_take(TransportSignal::TogglePlayPause) {
            self.playing = !self.playing;
        }
        if controls.try_take(TransportSignal::Next) {
            proof {
                catalog.next_position_wraps(self.cursor.track_index as int);
            }
            let following = catalog.next(&catalog.from_index(self.cursor.track_index));
            load_track(&mut self.cursor, state, &following);
            self.playing = true;
        }
        if controls.try_take(TransportSignal::Previous) {
            if self.cursor.progress_percent() > RESTART_THRESHOLD {
                self.cursor.byte_offset = 0;
                state.progress_percent = 0;
            } else {
                proof {
                    catalog.prev_position_wraps(self.cursor.track_index as int);
                }
                let preceding = catalog.prev(&catalog.from_index(self.cursor.track_index));
                load_track(&mut self.cursor, state, &preceding);
                self.playing = true;
            }
        }
        state.playing = self.playing;
    }

    /// The second half of a cycle: decides from the free space of the output
    /// buffer and the time what is pushed and what is published.
    pub fn feed(
        &mut self,
        catalog: &Catalog,
        state: &mut PlaybackState,
        available: usize,
        now_micros: u64,
    ) -> (action: Action)
        requires
            old(self).wf(catalog),
            old(state).volume <= MAX_VOLUME,
        ensures
            action@ == old(self).action(catalog, old(state).volume, available),
            *final(self) == old(self).after_feed(available, now_micros),
            *final(state) == old(self).state_after_feed(*old(state), available, now_micros),
            final(self).wf(catalog),
            old(state).wf() ==> final(state).wf(),
    {
        if !self.playing {
            let len: usize = if available < CHUNK_SIZE { available } else { CHUNK_SIZE };
            return Action::Silence { len };
        }
        if available <= HIGH_WATER_MARK {
            return Action::Idle;
        }
        let data = catalog.from_index(self.cursor.track_index).bytes();
        let remaining: usize = data.len() - self.cursor.byte_offset;
        let chunk_len: usize = if remaining < CHUNK_SIZE { remaining } else { CHUNK_SIZE };
        let start: usize = self.cursor.byte_offset;
        let raw = slice_subrange(data, start, start + chunk_len);
        let chunk = apply_gain(raw, state.volume);
        self.cursor.byte_offset = self.cursor.byte_offset + chunk_len;
        if now_micros > self.last_publish && now_micros - self.last_publish
            > PROGRESS_INTERVAL_MICROS {
            state.progress_percent = self.cursor.progress_percent();
            self.last_publish = now_micros;
        }
        if self.cursor.byte_offset >= self.cursor.total_len {
            self.cursor.byte_offset = 0;
            self.playing = false;
            state.playing = false;
            state.progress_percent = 0;
        }
        Action::Feed { chunk }
    }
}

} // verus!
