//! Lifecycle of the drawable strip: adopting configure sizes and requesting
//! the one-time pixel buffer.

use vstd::prelude::*;

verus! {

/// Width adopted when the compositor proposes a size with a zero component.
pub const FALLBACK_WIDTH: u32 = 20;

/// Height adopted when the compositor proposes a size with a zero component.
pub const FALLBACK_HEIGHT: u32 = 256;

/// Bytes per pixel of the ARGB-like buffer format.
pub const BYTES_PER_PIXEL: u32 = 4;

/// Size of the strip before the first configure event arrives. Gesture logic
/// never reads it: the session delivers a configure before any touch event.
pub const PROVISIONAL_SIZE: u32 = 256;

/// The drawable strip: its current size in pixels and whether its one-time
/// pixel buffer has already been requested.
#[derive(Clone, Copy, Debug, PartialEq, Eq, Structural)]
pub struct SurfaceLifecycle {
    pub width: u32,
    pub height: u32,
    pub initialized: bool,
}

/// A request to the windowing session: allocate a buffer of `byte_len` bytes
/// for a `width` x `height` region, attach it at offset (0,0) and commit.
#[derive(Clone, Copy, Debug, PartialEq, Eq, Structural)]
pub struct BufferRequest {
    pub width: u32,
    pub height: u32,
    pub byte_len: u128,
}

/// The width the controller adopts for a proposed size: the proposal itself,
/// or the fallback sliver when either component is zero.
pub open spec fn adopted_width(width: u32, height: u32) -> u32 {
    if width == 0 || height == 0 {
        FALLBACK_WIDTH
    } else {
        width
    }
}

/// The height the controller adopts for a proposed size.
pub open spec fn adopted_height(width: u32, height: u32) -> u32 {
    if width == 0 || height == 0 {
        FALLBACK_HEIGHT
    } else {
        height
    }
}

/// Byte size of the pixel buffer backing a `width` x `height` region.
pub open spec fn buffer_bytes(width: u32, height: u32) -> int {
    width * height * (BYTES_PER_PIXEL as int)
}

/// The state after one configure event: the adopted size, with the buffer
/// marked as requested.
pub open spec fn configure_step(st: SurfaceLifecycle, width: u32, height: u32) -> SurfaceLifecycle {
    SurfaceLifecycle {
        width: adopted_width(width, height),
        height: adopted_height(width, height),
        initialized: true,
    }
}

impl SurfaceLifecycle {
    /// A fresh controller: provisional size, no buffer requested yet.
    pub fn new() -> (s: Self)
        ensures
            s.width == PROVISIONAL_SIZE,
            s.height == PROVISIONAL_SIZE,
            !s.initialized,
    {
        SurfaceLifecycle { width: PROVISIONAL_SIZE, height: PROVISIONAL_SIZE, initialized: false }
    }

    /// Reacts to a configure event: adopts the proposed size (or the fallback
    /// for a degenerate proposal) on every call, and returns a buffer request
    /// on the first call only.
    pub fn on_configure(&mut self, width: u32, height: u32) -> (req: Option<BufferRequest>)
        ensures
            *final(self) == configure_step(*old(self), width, height),
            req is Some <==> !old(self).initialized,
            (match req {
                Option::Some(r) => {
                    &&& r.width == final(self).width
                    &&& r.height == final(self).height
                    &&& r.byte_len == buffer_bytes(final(self).width, final(self).height)
                },
                Option::None => true,
            }),
    {
        if width == 0 || height == 0 {
            self.width = FALLBACK_WIDTH;
            self.height = FALLBACK_HEIGHT;
        } else {
            self.width = width;
            self.height = height;
        }
        if !self.initialized {
            self.initialized = true;
            proof {
                let w = self.width as int;
                let h = self.height as int;
                assert(w * h * (BYTES_PER_PIXEL as int) <= (u32::MAX as int) * (u32::MAX as int)
                    * (BYTES_PER_PIXEL as int)) by (nonlinear_arith)
                    requires
                        0 <= w <= u32::MAX as int,
                        0 <= h <= u32::MAX as int,
                ;
            }
            let byte_len: u128 = (self.width as u128) * (self.height as u128)
                * (BYTES_PER_PIXEL as u128);
            Some(BufferRequest { width: self.width, height: self.height, byte_len })
        } else {
            None
        }
    }
}

/// The state after a whole sequence of configure events.
pub open spec fn run_configures(st: SurfaceLifecycle, sizes: Seq<(u32, u32)>) -> SurfaceLifecycle
    decreases sizes.len(),
{
    if sizes.len() == 0 {
        st
    } else {
        run_configures(configure_step(st, sizes[0].0, sizes[0].1), sizes.drop_first())
    }
}

/// How many of the configure events in `sizes` request a buffer: one for each
/// step taken from a state whose buffer is not yet requested.
pub open spec fn allocations(st: SurfaceLifecycle, sizes: Seq<(u32, u32)>) -> nat
    decreases sizes.len(),
{
    if sizes.len() == 0 {
        0
    } else {
        (if st.initialized {
            0nat
        } else {
            1nat
        }) + allocations(configure_step(st, sizes[0].0, sizes[0].1), sizes.drop_first())
    }
}

/// Once the buffer has been requested, no further configure event requests
/// another, however many arrive.
pub proof fn lemma_initialized_never_allocates(st: SurfaceLifecycle, sizes: Seq<(u32, u32)>)
    requires
        st.initialized,
    ensures
        allocations(st, sizes) == 0,
    decreases sizes.len(),
{
    if sizes.len() > 0 {
        lemma_initialized_never_allocates(
            configure_step(st, sizes[0].0, sizes[0].1),
            sizes.drop_first(),
        );
    }
}

/// Law: starting from a fresh controller, any non-empty sequence of configure
/// events requests the buffer exactly once.
pub proof fn lemma_allocates_exactly_once(st: SurfaceLifecycle, sizes: Seq<(u32, u32)>)
    requires
        !st.initialized,
        sizes.len() > 0,
    ensures
        allocations(st, sizes) == 1,
{
    lemma_initialized_never_allocates(
        configure_step(st, sizes[0].0, sizes[0].1),
        sizes.drop_first(),
    );
}

/// Law: after any non-empty sequence of configure events the region holds the
/// most recently delivered size, with the fallback substituted for a
/// degenerate proposal, and the buffer has been requested.
pub proof fn lemma_region_tracks_last_size(st: SurfaceLifecycle, sizes: Seq<(u32, u32)>)
    requires
        sizes.len() > 0,
    ensures
        run_configures(st, sizes).width == adopted_width(sizes.last().0, sizes.last().1),
        run_configures(st, sizes).height == adopted_height(sizes.last().0, sizes.last().1),
        run_configures(st, sizes).initialized,
    decreases sizes.len(),
{
    let stepped = configure_step(st, sizes[0].0, sizes[0].1);
    let rest = sizes.drop_first();
    assert(run_configures(st, sizes) == run_configures(stepped, rest));
    if sizes.len() == 1 {
        assert(run_configures(stepped, rest) == stepped);
    } else {
        lemma_region_tracks_last_size(stepped, rest);
        assert(rest.last() == sizes.last());
    }
}

} // verus!
