//! What the status display computes before it draws: the geometry of its
//! gauges, the transport icon and the refresh cadence.

use vstd::prelude::*;

verus! {

/// The gap, in pixels, between the border of a gauge and its fill.
pub const BAR_MARGIN: u32 = 2;

/// The refresh delay, in milliseconds, while nothing plays.
pub const IDLE_REFRESH_MS: u64 = 100;

/// The shortest refresh delay, in milliseconds, while a track plays.
pub const MIN_REFRESH_MS: u64 = 10;

/// A pixel position on the display.
#[derive(Debug, Clone, Copy, PartialEq, Eq, Structural)]
pub struct Point {
    pub x: i32,
    pub y: i32,
}

/// A size in pixels.
#[derive(Debug, Clone, Copy, PartialEq, Eq, Structural)]
pub struct Size {
    pub width: u32,
    pub height: u32,
}

/// An axis-aligned rectangle of pixels.
#[derive(Debug, Clone, Copy, PartialEq, Eq, Structural)]
pub struct Rectangle {
    pub top_left: Point,
    pub size: Size,
}

/// The direction in which a gauge fills.
#[derive(Debug, Clone, Copy, PartialEq, Eq, Structural)]
pub enum Orientation {
    /// Fills from the left.
    Horizontal,
    /// Fills from the bottom.
    Vertical,
}

/// The icon of the transport button.
#[derive(Debug, Clone, Copy, PartialEq, Eq, Structural)]
pub enum Icon {
    Play,
    Pause,
}

/// A progress value as a gauge shows it: capped at 100.
pub open spec fn shown_progress(progress: u8) -> int {
    if progress > 100 {
        100
    } else {
        progress as int
    }
}

/// The length, in pixels, of the fill of a gauge along its axis.
pub open spec fn fill_length(progress: u8, size: Size, orientation: Orientation) -> int {
    match orientation {
        Orientation::Horizontal => ((size.width - 2 * BAR_MARGIN) * shown_progress(progress)) / 100,
        Orientation::Vertical => ((size.height - 2 * BAR_MARGIN) * shown_progress(progress)) / 100,
    }
}

/// The size of the fill of a gauge.
pub open spec fn fill_size(progress: u8, size: Size, orientation: Orientation) -> (int, int) {
    match orientation {
        Orientation::Horizontal => (
            fill_length(progress, size, orientation),
            size.height - 2 * BAR_MARGIN,
        ),
        Orientation::Vertical => (
            size.width - 2 * BAR_MARGIN,
            fill_length(progress, size, orientation),
        ),
    }
}

/// Where the fill of a gauge starts, relative to the top left corner of the
/// gauge: inside the margin, and for a vertical gauge as far down as leaves
/// the fill standing on the bottom margin.
pub open spec fn fill_offset(progress: u8, size: Size, orientation: Orientation) -> (int, int) {
    match orientation {
        Orientation::Horizontal => (BAR_MARGIN as int, BAR_MARGIN as int),
        Orientation::Vertical => (
            BAR_MARGIN as int,
            size.height - BAR_MARGIN - fill_length(progress, size, orientation),
        ),
    }
}

/// The gauge is large enough to hold its margins, and both the offset of its
/// fill and the position at which the fill starts are coordinates.
pub open spec fn gauge_fits(
    progress: u8,
    position: Point,
    size: Size,
    orientation: Orientation,
) -> bool {
    &&& size.width >= 2 * BAR_MARGIN
    &&& size.height >= 2 * BAR_MARGIN
    &&& fill_offset(progress, size, orientation).1 <= i32::MAX
    &&& position.x + fill_offset(progress, size, orientation).0 <= i32::MAX
    &&& position.y + fill_offset(progress, size, orientation).1 <= i32::MAX
}

/// The filled part of a gauge, where it has one.
pub open spec fn gauge_fill(
    progress: u8,
    position: Point,
    size: Size,
    orientation: Orientation,
) -> Option<Rectangle> {
    let extent = fill_size(progress, size, orientation);
    let offset = fill_offset(progress, size, orientation);
    if extent.0 > 0 && extent.1 > 0 {
        Some(
            Rectangle {
                top_left: Point {
                    x: (position.x + offset.0) as i32,
                    y: (position.y + offset.1) as i32,
                },
                size: Size { width: extent.0 as u32, height: extent.1 as u32 },
            },
        )
    } else {
        None
    }
}

/// The fill of a gauge is never longer than the room between the margins.
pub proof fn fill_length_is_bounded(progress: u8, size: Size, orientation: Orientation)
    requires
        size.width >= 2 * BAR_MARGIN,
        size.height >= 2 * BAR_MARGIN,
    ensures
        orientation == Orientation::Horizontal ==> 0 <= fill_length(progress, size, orientation)
            <= size.width - 2 * BAR_MARGIN,
        orientation == Orientation::Vertical ==> 0 <= fill_length(progress, size, orientation)
            <= size.height - 2 * BAR_MARGIN,
{
    let p = shown_progress(progress);
    let w = size.width - 2 * BAR_MARGIN;
    let h = size.height - 2 * BAR_MARGIN;
    assert(0 <= w * p <= w * 100) by (nonlinear_arith)
        requires
            0 <= w,
            0 <= p <= 100,
    ;
    assert(0 <= h * p <= h * 100) by (nonlinear_arith)
        requires
            0 <= h,
            0 <= p <= 100,
    ;
}

/// The outline of a gauge: the rectangle at `position` of `size`.
pub fn progress_bar_border(position: Point, size: Size) -> (border: Rectangle)
    ensures
        border == (Rectangle { top_left: position, size }),
{
    Rectangle { top_left: position, size }
}

/// The filled part of a gauge that shows `progress` percent, or `None` where
/// nothing is to be filled.
pub fn progress_bar_fill(
    progress: u8,
    position: Point,
    size: Size,
    orientation: Orientation,
) -> (fill: Option<Rectangle>)
    requires
        gauge_fits(progress, position, size, orientation),
    ensures
        fill == gauge_fill(progress, position, size, orientation),
{
    proof {
        fill_length_is_bounded(progress, size, orientation);
    }
    let shown: u64 = if progress > 100 { 100 } else { progress as u64 };
    let inner_width: u32 = size.width - 2 * BAR_MARGIN;
    let inner_height: u32 = size.height - 2 * BAR_MARGIN;
    let margin: i32 = 2;
    match orientation {
        Orientation::Horizontal => {
            assert(inner_width as u64 * shown <= 100 * 0xffff_ffffu64) by (nonlinear_arith)
                requires
                    inner_width <= 0xffff_ffffu32,
                    shown <= 100,
            ;
            let length: u32 = ((inner_width as u64 * shown) / 100) as u32;
            assert(length == fill_length(progress, size, orientation));
            if length > 0 && inner_height > 0 {
                Some(
                    Rectangle {
                        top_left: Point { x: position.x + margin, y: position.y + margin },
                        size: Size { width: length, height: inner_height },
                    },
                )
            } else {
                None
            }
        },
        Orientation::Vertical => {
            assert(inner_height as u64 * shown <= 100 * 0xffff_ffffu64) by (nonlinear_arith)
                requires
                    inner_height <= 0xffff_ffffu32,
                    shown <= 100,
            ;
            let length: u32 = ((inner_height as u64 * shown) / 100) as u32;
            assert(length == fill_length(progress, size, orientation));
            let drop: u32 = (size.height - BAR_MARGIN) - length;
            if inner_width > 0 && length > 0 {
                Some(
                    Rectangle {
                        top_left: Point { x: position.x + margin, y: position.y + drop as i32 },
                        size: Size { width: inner_width, height: length },
                    },
                )
            } else {
                None
            }
        },
    }
}

/// The icon of the transport button: it offers the pause while a track
/// plays, and the play otherwise.
pub fn get_play_pause_icon(playing: bool) -> (icon: Icon)
    ensures
        icon == if playing {
            Icon::Pause
        } else {
            Icon::Play
        },
{
    if playing {
        Icon::Pause
    } else {
        Icon::Play
    }
}

/// The animation frame that follows frame `current` of `frame_count`: the
/// next one, and the first one after the last, while a track plays; the same
/// one while nothing plays.
pub open spec fn frame_after(playing: bool, current: int, frame_count: int) -> int {
    if playing {
        (current + 1) % frame_count
    } else {
        current
    }
}

/// Steps the animation: see [`frame_after`].
pub fn next_frame(playing: bool, current: usize, frame_count: usize) -> (next: usize)
    requires
        current < frame_count,
    ensures
        next == frame_after(playing, current as int, frame_count as int),
        next < frame_count,
{
    if !playing {
        current
    } else if current + 1 == frame_count {
        assert(frame_count as int % frame_count as int == 0) by (nonlinear_arith)
            requires
                frame_count > 0,
        ;
        0
    } else {
        assert((current + 1) % frame_count as int == current + 1) by (nonlinear_arith)
            requires
                0 <= current + 1 < frame_count,
        ;
        current + 1
    }
}

/// The delay before the next refresh, in milliseconds.
pub open spec fn refresh_delay(playing: bool, frame_delay_centis: u16) -> int {
    if !playing {
        IDLE_REFRESH_MS as int
    } else if frame_delay_centis * 3 < MIN_REFRESH_MS {
        MIN_REFRESH_MS as int
    } else {
        frame_delay_centis * 3
    }
}

/// The delay before the next refresh, in milliseconds: three times the delay
/// of the animation frame just shown, counted in hundredths of a second, but
/// no less than the minimum, while a track plays; the idle cadence otherwise.
pub fn refresh_delay_ms(playing: bool, frame_delay_centis: u16) -> (millis: u64)
    ensures
        millis == refresh_delay(playing, frame_delay_centis),
{
    if playing {
        let delay: u64 = (frame_delay_centis as u64) * 3;
        if delay < MIN_REFRESH_MS {
            MIN_REFRESH_MS
        } else {
            delay
        }
    } else {
        IDLE_REFRESH_MS
    }
}

} // verus!
