//! The track catalog: an ordered, fixed list of tracks with wrap-around
//! stepping and a lookup that never fails.

use crate::display::Point;
use vstd::prelude::*;

verus! {

/// The largest number of tracks a catalog can hold: every position must fit
/// the one-byte track index of the shared playback state.
pub const MAX_TRACKS: usize = 256;

/// One track: raw PCM bytes with what the display shows for them. The bytes
/// and the title are borrowed, so that a track can stand for data that is
/// resident in read-only storage.
#[derive(Debug, Clone, Copy)]
pub struct Track<'a> {
    /// The position of the track in its catalog.
    pub index: u8,
    /// The title shown while the track is selected.
    pub title: &'a str,
    /// Where the display puts the title.
    pub title_layout: Point,
    /// 16-bit signed little-endian PCM.
    pub pcm: &'a [u8],
}

impl<'a> Track<'a> {
    /// The position of the track in its catalog.
    pub fn to_index(&self) -> (index: u8)
        ensures
            index == self.index,
    {
        self.index
    }

    /// The title shown while the track is selected.
    pub fn title(&self) -> (title: &'a str)
        ensures
            title@ == self.title@,
    {
        self.title
    }

    /// Where the display puts the title.
    pub fn title_pos(&self) -> (pos: Point)
        ensures
            pos == self.title_layout,
    {
        self.title_layout
    }

    /// The PCM bytes of the track.
    pub fn bytes(&self) -> (bytes: &'a [u8])
        ensures
            bytes@ == self.pcm@,
    {
        self.pcm
    }
}

/// The tracks are numbered densely from zero, there is at least one and no
/// more than the index type can number, and none is empty.
pub open spec fn valid_tracks<'a>(tracks: Seq<Track<'a>>) -> bool {
    &&& 1 <= tracks.len() <= MAX_TRACKS
    &&& forall|i: int|
        0 <= i < tracks.len() ==> (#[trigger] tracks[i]).index == i && tracks[i].pcm@.len() > 0
}

/// An ordered list of tracks.
#[derive(Debug)]
pub struct Catalog<'a> {
    /// The tracks, each at the position its index names.
    pub tracks: Vec<Track<'a>>,
}

impl<'a> Catalog<'a> {
    /// The invariant of a catalog: see [`valid_tracks`].
    pub open spec fn wf(&self) -> bool {
        valid_tracks(self.tracks@)
    }

    /// The number of tracks.
    pub open spec fn count(&self) -> int {
        self.tracks@.len() as int
    }

    /// The position that an index stands for: itself where it names a track,
    /// the default position zero where it does not.
    pub open spec fn position(&self, index: int) -> int {
        if 0 <= index < self.count() {
            index
        } else {
            0
        }
    }

    /// The position one step forward from `index`, wrapping at the end.
    pub open spec fn next_position(&self, index: int) -> int {
        (self.position(index) + 1) % self.count()
    }

    /// The position one step back from `index`, wrapping at the start.
    pub open spec fn prev_position(&self, index: int) -> int {
        (self.position(index) + self.count() - 1) % self.count()
    }

    /// The position reached from `index` by `steps` steps forward.
    pub open spec fn next_times(&self, index: int, steps: nat) -> int
        decreases steps,
    {
        if steps == 0 {
            self.position(index)
        } else {
            self.next_position(self.next_times(index, (steps - 1) as nat))
        }
    }

    /// The position reached from `index` by `steps` steps back.
    pub open spec fn prev_times(&self, index: int, steps: nat) -> int
        decreases steps,
    {
        if steps == 0 {
            self.position(index)
        } else {
            self.prev_position(self.prev_times(index, (steps - 1) as nat))
        }
    }

    /// Stepping forward moves to the following position, and from the last
    /// position to the first; the result always names a track.
    pub proof fn next_position_wraps(&self, index: int)
        requires
            self.wf(),
        ensures
            0 <= self.next_position(index) < self.count(),
            self.next_position(index) == if self.position(index) + 1 == self.count() {
                0
            } else {
                self.position(index) + 1
            },
    {
        let n = self.count();
        let p = self.position(index);
        if p + 1 == n {
            assert(n % n == 0) by (nonlinear_arith)
                requires
                    n > 0,
            ;
        } else {
            assert((p + 1) % n == p + 1) by (nonlinear_arith)
                requires
                    0 <= p + 1 < n,
            ;
        }
    }

    /// Stepping back moves to the preceding position, and from the first
    /// position to the last; the result always names a track.
    pub proof fn prev_position_wraps(&self, index: int)
        requires
            self.wf(),
        ensures
            0 <= self.prev_position(index) < self.count(),
            self.prev_position(index) == if self.position(index) == 0 {
                self.count() - 1
            } else {
                self.position(index) - 1
            },
    {
        let n = self.count();
        let p = self.position(index);
        if p == 0 {
            assert((n - 1) % n == n - 1) by (nonlinear_arith)
                requires
                    n > 0,
            ;
        } else {
            assert((p + n - 1) % n == p - 1) by (nonlinear_arith)
                requires
                    0 < p < n,
            ;
        }
    }

    /// Stepping back undoes stepping forward, and stepping forward undoes
    /// stepping back.
    pub proof fn next_and_prev_cancel(&self, index: int)
        requires
            self.wf(),
        ensures
            self.prev_position(self.next_position(index)) == self.position(index),
            self.next_position(self.prev_position(index)) == self.position(index),
    {
        self.next_position_wraps(index);
        self.prev_position_wraps(index);
        self.next_position_wraps(self.prev_position(index));
        self.prev_position_wraps(self.next_position(index));
    }

    proof fn next_times_adds(&self, index: int, steps: nat)
        requires
            self.wf(),
            0 <= index < self.count(),
            steps <= self.count(),
        ensures
            self.next_times(index, steps) == if index + steps < self.count() {
                index + steps
            } else {
                index + steps - self.count()
            },
        decreases steps,
    {
        if steps > 0 {
            self.next_times_adds(index, (steps - 1) as nat);
            self.next_position_wraps(self.next_times(index, (steps - 1) as nat));
        }
    }

    proof fn prev_times_subtracts(&self, index: int, steps: nat)
        requires
            self.wf(),
            0 <= index < self.count(),
            steps <= self.count(),
        ensures
            self.prev_times(index, steps) == if index - steps >= 0 {
                index - steps
            } else {
                index - steps + self.count()
            },
        decreases steps,
    {
        if steps > 0 {
            self.prev_times_subtracts(index, (steps - 1) as nat);
            self.prev_position_wraps(self.prev_times(index, (steps - 1) as nat));
        }
    }

    /// As many steps forward as the catalog has tracks lead back to the track
    /// they started from.
    pub proof fn next_is_cyclic(&self, index: int)
        requires
            self.wf(),
            0 <= index < self.count(),
        ensures
            self.next_times(index, self.count() as nat) == index,
            self.tracks@[self.next_times(index, self.count() as nat)] == self.tracks@[index],
    {
        self.next_times_adds(index, self.count() as nat);
    }

    /// As many steps back as the catalog has tracks lead back to the track
    /// they started from.
    pub proof fn prev_is_cyclic(&self, index: int)
        requires
            self.wf(),
            0 <= index < self.count(),
        ensures
            self.prev_times(index, self.count() as nat) == index,
            self.tracks@[self.prev_times(index, self.count() as nat)] == self.tracks@[index],
    {
        self.prev_times_subtracts(index, self.count() as nat);
    }

    /// Makes a catalog of `tracks`, or `None` where they break the invariant
    /// of a catalog.
    pub fn new(tracks: Vec<Track<'a>>) -> (catalog: Option<Catalog<'a>>)
        ensures
            catalog.is_some() <==> valid_tracks(tracks@),
            catalog.is_some() ==> catalog.unwrap().tracks == tracks,
    {
        let len: usize = tracks.len();
        if len < 1 || len > MAX_TRACKS {
            return None;
        }
        let mut i: usize = 0;
        while i < len
            invariant
                len == tracks@.len(),
                1 <= len <= MAX_TRACKS,
                i <= len,
                forall|j: int|
                    0 <= j < i ==> (#[trigger] tracks@[j]).index == j && tracks@[j].pcm@.len() > 0,
            decreases len - i,
        {
            if tracks[i].index as usize != i || tracks[i].pcm.len() == 0 {
                return None;
            }
            i = i + 1;
        }
        Some(Catalog { tracks })
    }

    /// The number of tracks.
    pub fn len(&self) -> (len: usize)
        ensures
            len == self.count(),
    {
        self.tracks.len()
    }

    /// The track at `index`, or the default track at position zero where
    /// `index` names none.
    pub fn from_index(&self, index: u8) -> (track: Track<'a>)
        requires
            self.wf(),
        ensures
            track == self.tracks@[self.position(index as int)],
            track.index == self.position(index as int),
            track.pcm@.len() > 0,
    {
        let i: usize = index as usize;
        if i < self.tracks.len() {
            self.tracks[i]
        } else {
            self.tracks[0]
        }
    }

    /// The track that follows `track`, the first one after the last. A track
    /// whose index names none of this catalog counts as the default track.
    pub fn next(&self, track: &Track) -> (following: Track<'a>)
        requires
            self.wf(),
        ensures
            following == self.tracks@[self.next_position(track.index as int)],
            following.index == self.next_position(track.index as int),
            following.pcm@.len() > 0,
    {
        proof {
            self.next_position_wraps(track.index as int);
        }
        let len: usize = self.tracks.len();
        let i: usize = track.index as usize;
        let position: usize = if i < len { i } else { 0 };
        self.tracks[(position + 1) % len]
    }

    /// The track that precedes `track`, the last one before the first. A
    /// track whose index names none of this catalog counts as the default
    /// track.
    pub fn prev(&self, track: &Track) -> (preceding: Track<'a>)
        requires
            self.wf(),
        ensures
            preceding == self.tracks@[self.prev_position(track.index as int)],
            preceding.index == self.prev_position(track.index as int),
            preceding.pcm@.len() > 0,
    {
        proof {
            self.prev_position_wraps(track.index as int);
        }
        let len: usize = self.tracks.len();
        let i: usize = track.index as usize;
        let position: usize = if i < len { i } else { 0 };
        self.tracks[(position + len - 1) % len]
    }
}

} // verus!
