//! The core's single entry point: one context object holding the surface
//! lifecycle controller and the gesture recognizer, consuming the events the
//! session driver delivers and returning the action the caller must perform.

use vstd::prelude::*;
use crate::gesture::{Gesture, Recognizer, motion_step};
use crate::surface::{BufferRequest, SurfaceLifecycle, PROVISIONAL_SIZE, buffer_bytes,
    configure_step};

verus! {

/// An event delivered by the windowing session. Touch coordinates are in
/// tenths of a pixel; configure sizes are in pixels.
#[derive(Clone, Copy, Debug, PartialEq, Eq, Structural)]
pub enum InputEvent {
    Configure { width: u32, height: u32 },
    Down { x: i32, y: i32 },
    Motion { x: i32, y: i32 },
    Up,
    Cancel,
}

/// What the caller must do after one event is handled: nothing, allocate and
/// commit the one-time pixel buffer, or dispatch a recognized gesture.
#[derive(Clone, Copy, Debug, PartialEq, Eq, Structural)]
pub enum Effect {
    NoAction,
    CreateBuffer(BufferRequest),
    Emit(Gesture),
}

/// The whole state of the core: the drawable strip and the touch contact.
pub struct TopBorder {
    pub surface: SurfaceLifecycle,
    pub recognizer: Recognizer,
}

impl TopBorder {
    /// A fresh core: provisional strip size, no buffer requested, no contact
    /// tracked.
    pub fn new() -> (t: Self)
        ensures
            t.surface.width == PROVISIONAL_SIZE,
            t.surface.height == PROVISIONAL_SIZE,
            !t.surface.initialized,
            t.recognizer.anchor is None,
    {
        TopBorder { surface: SurfaceLifecycle::new(), recognizer: Recognizer::new() }
    }

    /// Routes one session event to the component that owns it: configure
    /// events to the surface lifecycle controller, touch events to the
    /// gesture recognizer.
    pub fn handle(&mut self, ev: InputEvent) -> (eff: Effect)
        ensures
            (match ev {
                InputEvent::Configure { width, height } => {
                    &&& final(self).surface == configure_step(old(self).surface, width, height)
                    &&& final(self).recognizer.anchor == old(self).recognizer.anchor
                    &&& (if old(self).surface.initialized {
                        eff == Effect::NoAction
                    } else {
                        eff matches Effect::CreateBuffer(r) && r.width == final(self).surface.width
                            && r.height == final(self).surface.height && r.byte_len == buffer_bytes(
                            final(self).surface.width,
                            final(self).surface.height,
                        )
                    })
                },
                InputEvent::Down { x, y } => {
                    &&& final(self).surface == old(self).surface
                    &&& final(self).recognizer.anchor == Some((x, y))
                    &&& eff == Effect::NoAction
                },
                InputEvent::Motion { x, y } => {
                    &&& final(self).surface == old(self).surface
                    &&& final(self).recognizer.anchor_spec() == motion_step(
                        old(self).recognizer.anchor_spec(),
                        x as int,
                        y as int,
                        old(self).surface.width as int,
                    ).1
                    &&& eff == (match motion_step(
                        old(self).recognizer.anchor_spec(),
                        x as int,
                        y as int,
                        old(self).surface.width as int,
                    ).0 {
                        Some(g) => Effect::Emit(g),
                        None => Effect::NoAction,
                    })
                },
                InputEvent::Up => {
                    &&& final(self).surface == old(self).surface
                    &&& final(self).recognizer.anchor is None
                    &&& eff == Effect::NoAction
                },
                InputEvent::Cancel => {
                    &&& final(self).surface == old(self).surface
                    &&& final(self).recognizer.anchor is None
                    &&& eff == Effect::NoAction
                },
            }),
    {
        match ev {
            InputEvent::Configure { width, height } => {
                match self.surface.on_configure(width, height) {
                    Some(req) => Effect::CreateBuffer(req),
                    None => Effect::NoAction,
                }
            },
            InputEvent::Down { x, y } => {
                self.recognizer.on_down(x, y);
                Effect::NoAction
            },
            InputEvent::Motion { x, y } => {
                let width = self.surface.width;
                match self.recognizer.on_motion(x, y, width) {
                    Some(g) => Effect::Emit(g),
                    None => Effect::NoAction,
                }
            },
            InputEvent::Up => {
                self.recognizer.on_up();
                Effect::NoAction
            },
            InputEvent::Cancel => {
                self.recognizer.on_cancel();
                Effect::NoAction
            },
        }
    }
}

} // verus!
