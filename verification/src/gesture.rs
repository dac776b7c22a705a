//! The gesture recognizer: classifies the motion of a single touch contact
//! into incremental horizontal slides and one-shot vertical pulls.
//!
//! Coordinates are fixed-point: integer tenths of a pixel. The classification
//! thresholds of the recognizer are exact in this unit.

use vstd::prelude::*;

verus! {

/// A slide fires only while the contact stays within this vertical band
/// around the anchor (tenths of a pixel; 10 pixels).
pub const SLIDE_DY_LIMIT: i64 = 100;

/// Minimum horizontal travel from the anchor for a slide to fire
/// (tenths of a pixel; 20 pixels).
pub const SLIDE_DX_MIN: i64 = 200;

/// Subtracted from the horizontal travel to obtain the slide magnitude
/// (tenths of a pixel; 19.9 pixels).
pub const SLIDE_OFFSET: i64 = 199;

/// A pull fires only while the contact stays within this horizontal band
/// around the anchor (tenths of a pixel; 40 pixels).
pub const PULL_DX_LIMIT: i64 = 400;

/// Minimum downward travel from the anchor for a pull to fire
/// (tenths of a pixel; 80 pixels).
pub const PULL_DY_MIN: i64 = 800;

/// A recognized edge gesture. Slide magnitudes are in tenths of a pixel.
#[derive(Clone, Copy, Debug, PartialEq, Eq, Structural)]
pub enum Gesture {
    SlideLeft(u64),
    SlideRight(u64),
    PullLeft,
    PullMid,
    PullRight,
}

/// The pull gesture chosen for a terminal contact position `x` (tenths of a
/// pixel) on a strip `width` pixels wide: the strip is split into three equal
/// zones, with boundaries at floor(width/3) and floor(2*width/3) pixels.
pub open spec fn pull_zone(x: int, width: int) -> Gesture {
    if x < width / 3 * 10 {
        Gesture::PullLeft
    } else if x < 2 * width / 3 * 10 {
        Gesture::PullMid
    } else {
        Gesture::PullRight
    }
}

/// One motion event of the recognizer's state machine: from the current
/// anchor (`None` when no contact is tracked) and the new contact position,
/// the gesture emitted and the anchor afterwards.
///
/// The rules, in priority order, measured from the anchor:
/// a near-horizontal slide of at least `SLIDE_DX_MIN` emits a slide and
/// re-anchors at the new position; otherwise a near-vertical pull of at least
/// `PULL_DY_MIN` emits the zone's pull and clears the anchor; any other
/// motion emits nothing and leaves the anchor in place.
pub open spec fn motion_step(anchor: Option<(int, int)>, x: int, y: int, width: int) -> (Option<
    Gesture,
>, Option<(int, int)>) {
    match anchor {
        None => (None, None),
        Some(p) => {
            let dx = x - p.0;
            let dy = y - p.1;
            if vstd::math::abs(dy) < SLIDE_DY_LIMIT as int && dx <= -(SLIDE_DX_MIN as int) {
                (Some(Gesture::SlideLeft((-dx - SLIDE_OFFSET as int) as u64)), Some((x, y)))
            } else if vstd::math::abs(dy) < SLIDE_DY_LIMIT as int && dx >= SLIDE_DX_MIN as int {
                (Some(Gesture::SlideRight((dx - SLIDE_OFFSET as int) as u64)), Some((x, y)))
            } else if vstd::math::abs(dx) < PULL_DX_LIMIT as int && dy >= PULL_DY_MIN as int {
                (Some(pull_zone(x, width)), None)
            } else {
                (None, anchor)
            }
        },
    }
}

/// The view of an anchor as a pair of unbounded integers.
pub open spec fn anchor_view(a: Option<(i32, i32)>) -> Option<(int, int)> {
    match a {
        None => None,
        Some(p) => Some((p.0 as int, p.1 as int)),
    }
}

/// The touch-contact state machine: `anchor` holds the position the current
/// contact is measured from, or `None` while no contact is tracked.
pub struct Recognizer {
    pub anchor: Option<(i32, i32)>,
}

impl Recognizer {
    /// A fresh recognizer, tracking no contact.
    pub fn new() -> (r: Self)
        ensures
            r.anchor is None,
    {
        Recognizer { anchor: None }
    }

    /// The view of the recognizer's anchor.
    pub open spec fn anchor_spec(&self) -> Option<(int, int)> {
        anchor_view(self.anchor)
    }

    /// A contact touched down: start tracking it from its position. A down
    /// arriving while a contact is already tracked overwrites the anchor.
    pub fn on_down(&mut self, x: i32, y: i32)
        ensures
            final(self).anchor == Some((x, y)),
    {
        self.anchor = Some((x, y));
    }

    /// The contact lifted: stop tracking, emitting nothing.
    pub fn on_up(&mut self)
        ensures
            final(self).anchor is None,
    {
        self.anchor = None;
    }

    /// The session cancelled the contact: treated exactly as a lift.
    pub fn on_cancel(&mut self)
        ensures
            final(self).anchor is None,
    {
        self.anchor = None;
    }

    /// The contact moved to `(x, y)` on a strip `width` pixels wide:
    /// classifies the motion and returns the gesture it emits, if any.
    pub fn on_motion(&mut self, x: i32, y: i32, width: u32) -> (g: Option<Gesture>)
        ensures
            g == motion_step(old(self).anchor_spec(), x as int, y as int, width as int).0,
            final(self).anchor_spec() == motion_step(
                old(self).anchor_spec(),
                x as int,
                y as int,
                width as int,
            ).1,
    {
        let a = match self.anchor {
            None => {
                return None;
            },
            Some(p) => p,
        };
        let dx: i64 = (x as i64) - (a.0 as i64);
        let dy: i64 = (y as i64) - (a.1 as i64);
        let ady: i64 = if dy < 0 {
            -dy
        } else {
            dy
        };
        if ady < SLIDE_DY_LIMIT {
            if dx <= -SLIDE_DX_MIN {
                self.anchor = Some((x, y));
                return Some(Gesture::SlideLeft(((-dx) - SLIDE_OFFSET) as u64));
            }
            if dx >= SLIDE_DX_MIN {
                self.anchor = Some((x, y));
                return Some(Gesture::SlideRight((dx - SLIDE_OFFSET) as u64));
            }
        }
        let adx: i64 = if dx < 0 {
            -dx
        } else {
            dx
        };
        if adx < PULL_DX_LIMIT && dy >= PULL_DY_MIN {
            self.anchor = None;
            let third: u64 = (width as u64) / 3 * 10;
            let two_thirds: u64 = 2 * (width as u64) / 3 * 10;
            if (x as i64) < (third as i64) {
                return Some(Gesture::PullLeft);
            }
            if (x as i64) < (two_thirds as i64) {
                return Some(Gesture::PullMid);
            }
            return Some(Gesture::PullRight);
        }
        None
    }
}

/// Law: while no contact is tracked, motion is ignored: nothing is emitted
/// and no anchor appears.
pub proof fn lemma_idle_motion_ignored(x: int, y: int, width: int)
    ensures
        motion_step(None, x, y, width) == (None::<Gesture>, None::<(int, int)>),
{
}

/// Law: from any anchor, a horizontal motion of 25 pixels to the left emits
/// a left slide of magnitude 5.1 pixels and re-anchors at the new position,
/// so a further 25 pixels of the same motion emits the same slide again.
pub proof fn lemma_slide_left_repeats(px: int, py: int, width: int)
    ensures
        motion_step(Some((px, py)), px - 250, py, width) == (
            Some(Gesture::SlideLeft(51u64)),
            Some((px - 250, py)),
        ),
        motion_step(Some((px - 250, py)), px - 500, py, width) == (
            Some(Gesture::SlideLeft(51u64)),
            Some((px - 500, py)),
        ),
{
}

/// Law: from any anchor, a horizontal motion of 25 pixels to the right emits
/// a right slide of magnitude 5.1 pixels and re-anchors at the new position.
pub proof fn lemma_slide_right(px: int, py: int, width: int)
    ensures
        motion_step(Some((px, py)), px + 250, py, width) == (
            Some(Gesture::SlideRight(51u64)),
            Some((px + 250, py)),
        ),
{
}

/// Law: on a strip 300 pixels wide, a straight pull down of 85 pixels ending
/// at x = 50 pixels emits a left pull and clears the anchor.
pub proof fn lemma_pull_left_clears(py: int)
    ensures
        motion_step(Some((500, py)), 500, py + 850, 300) == (
            Some(Gesture::PullLeft),
            None::<(int, int)>,
        ),
{
}

/// Law: on a strip 300 pixels wide, a straight pull down of 85 pixels ending
/// at x = 150 pixels emits a middle pull; ending at x = 250 pixels, a right
/// pull. Both clear the anchor.
pub proof fn lemma_pull_mid_and_right(py: int)
    ensures
        motion_step(Some((1500, py)), 1500, py + 850, 300) == (
            Some(Gesture::PullMid),
            None::<(int, int)>,
        ),
        motion_step(Some((2500, py)), 2500, py + 850, 300) == (
            Some(Gesture::PullRight),
            None::<(int, int)>,
        ),
{
}

/// Law: from any anchor, a motion of 10 pixels across and 50 pixels down
/// lies inside both dead zones and below the pull threshold: nothing is
/// emitted and the anchor is unchanged.
pub proof fn lemma_dead_zone_motion_ignored(px: int, py: int, width: int)
    ensures
        motion_step(Some((px, py)), px + 100, py + 500, width) == (
            None::<Gesture>,
            Some((px, py)),
        ),
{
}

} // verus!
