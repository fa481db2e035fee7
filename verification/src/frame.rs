//! The frame loop of the wallpaper surface: when a frame callback is requested from
//! the compositor, when the first frame is rendered, how rendered frames are counted
//! for the periodic statistics, and what is presented for a render-context update.

use vstd::prelude::*;

verus! {

/// The bit of mpv's render-context update flags that says a new video frame is ready.
pub const RENDER_UPDATE_FRAME: u64 = 1;

/// What is presented after mpv's render context was updated. Either way the buffers are
/// swapped, which commits the surface: without a commit the compositor never answers the
/// pending frame callback.
#[derive(PartialEq, Eq, Structural, Debug, Clone, Copy)]
pub enum Presentation {
    /// Render the new frame into the default framebuffer, flipped vertically, swap the
    /// buffers and report the swap to mpv.
    RenderAndSwap,
    /// Only swap the buffers: mpv has no new frame.
    SwapOnly,
}

pub open spec fn has_new_frame(update_flags: u64) -> bool {
    update_flags & RENDER_UPDATE_FRAME != 0
}

/// What to present for the update flags `update_flags`.
pub fn presentation_for(update_flags: u64) -> (p: Presentation)
    ensures
        p == (if has_new_frame(update_flags) { Presentation::RenderAndSwap } else { Presentation::SwapOnly }),
{
    if update_flags & RENDER_UPDATE_FRAME != 0 {
        Presentation::RenderAndSwap
    } else {
        Presentation::SwapOnly
    }
}

/// A new frame is ready exactly when the update flags are odd.
pub proof fn lemma_new_frame_is_lowest_bit(update_flags: u64)
    ensures
        has_new_frame(update_flags) <==> update_flags % 2 == 1,
{
    assert((update_flags & 1u64 != 0) <==> update_flags % 2 == 1) by (bit_vector);
}

/// The bookkeeping of the frame loop.
#[derive(PartialEq, Eq, Structural, Debug, Clone, Copy)]
pub struct FrameLoop {
    /// The first render was tried (it is tried once, without waiting for mpv).
    pub first_render_attempted: bool,
    /// The first frame was rendered.
    pub first_frame_rendered: bool,
    /// A frame callback was requested from the compositor and has not fired yet.
    pub frame_pending: bool,
    /// Frames rendered since the last statistics report.
    pub frame_count: u64,
}

/// What the first iteration of the event loop does.
#[derive(PartialEq, Eq, Structural, Debug, Clone, Copy)]
pub struct FirstRenderPlan {
    /// Request a frame callback on the surface (before rendering, so that the swap
    /// commits the request).
    pub request_frame: bool,
    /// Render a frame now.
    pub render: bool,
}

pub open spec fn initial_frame_loop() -> FrameLoop {
    FrameLoop { first_render_attempted: false, first_frame_rendered: false, frame_pending: false, frame_count: 0 }
}

/// An iteration starts; `can_request_frame` says whether a surface and a queue handle exist,
/// `has_renderer` whether the render state exists.
pub open spec fn begin_iteration_spec(s: FrameLoop, can_request_frame: bool, has_renderer: bool) -> (FrameLoop, FirstRenderPlan) {
    if s.first_render_attempted {
        (s, FirstRenderPlan { request_frame: false, render: false })
    } else {
        (
            FrameLoop {
                first_render_attempted: true,
                frame_pending: s.frame_pending || can_request_frame,
                ..s
            },
            FirstRenderPlan { request_frame: can_request_frame, render: has_renderer },
        )
    }
}

/// The first render was made; `rendered` says whether mpv had a frame.
pub open spec fn first_render_done_spec(s: FrameLoop, rendered: bool) -> FrameLoop {
    FrameLoop {
        first_frame_rendered: true,
        frame_count: if rendered { (s.frame_count + 1) as u64 } else { s.frame_count },
        ..s
    }
}

/// mpv signalled (`needs_render`) or not that it has new data.
pub open spec fn frame_update_spec(s: FrameLoop, needs_render: bool, can_request_frame: bool) -> (FrameLoop, bool) {
    if needs_render && !s.frame_pending && can_request_frame {
        (FrameLoop { frame_pending: true, ..s }, true)
    } else {
        (s, false)
    }
}

/// The compositor answered the pending frame callback: no callback is pending any more,
/// and a frame is rendered now when the render state exists (`has_renderer`).
pub open spec fn frame_done_spec(s: FrameLoop, has_renderer: bool) -> (FrameLoop, bool) {
    (FrameLoop { frame_pending: false, ..s }, has_renderer)
}

/// A render made on a frame callback; `rendered` says whether mpv had a frame.
pub open spec fn frame_rendered_spec(s: FrameLoop, rendered: bool) -> FrameLoop {
    FrameLoop { frame_count: if rendered { (s.frame_count + 1) as u64 } else { s.frame_count }, ..s }
}

/// The statistics timer fired: it reports the frames counted so far, and counting restarts.
pub open spec fn stats_tick_spec(s: FrameLoop) -> (FrameLoop, u64) {
    (FrameLoop { frame_count: 0, ..s }, s.frame_count)
}

impl FrameLoop {
    pub fn new() -> (r: FrameLoop)
        ensures
            r == initial_frame_loop(),
    {
        FrameLoop { first_render_attempted: false, first_frame_rendered: false, frame_pending: false, frame_count: 0 }
    }

    /// Starts an iteration of the event loop and says what the first-render step does.
    pub fn begin_iteration(&mut self, can_request_frame: bool, has_renderer: bool) -> (plan: FirstRenderPlan)
        ensures
            (*final(self), plan) == begin_iteration_spec(*old(self), can_request_frame, has_renderer),
    {
        if self.first_render_attempted {
            FirstRenderPlan { request_frame: false, render: false }
        } else {
            self.first_render_attempted = true;
            if can_request_frame {
                self.frame_pending = true;
            }
            FirstRenderPlan { request_frame: can_request_frame, render: has_renderer }
        }
    }

    /// Records the first render; `rendered` says whether a frame was rendered.
    pub fn first_render_done(&mut self, rendered: bool)
        requires
            rendered ==> old(self).frame_count < u64::MAX,
        ensures
            *final(self) == first_render_done_spec(*old(self), rendered),
    {
        if rendered {
            self.frame_count = self.frame_count + 1;
        }
        self.first_frame_rendered = true;
    }

    /// Says whether to request a frame callback now: when mpv has new data, no callback is
    /// pending and a surface and a queue handle exist.
    pub fn frame_update(&mut self, needs_render: bool, can_request_frame: bool) -> (request: bool)
        ensures
            (*final(self), request) == frame_update_spec(*old(self), needs_render, can_request_frame),
    {
        if needs_render && !self.frame_pending && can_request_frame {
            self.frame_pending = true;
            true
        } else {
            false
        }
    }

    /// The pending frame callback fired: the callback is no longer pending, and the
    /// result says whether to render now (exactly when the render state exists).
    pub fn frame_done(&mut self, has_renderer: bool) -> (render: bool)
        ensures
            (*final(self), render) == frame_done_spec(*old(self), has_renderer),
            !final(self).frame_pending,
            render == has_renderer,
    {
        self.frame_pending = false;
        has_renderer
    }

    /// Records a render made on a frame callback; `rendered` says whether a frame was
    /// rendered.
    pub fn frame_rendered(&mut self, rendered: bool)
        requires
            rendered ==> old(self).frame_count < u64::MAX,
        ensures
            *final(self) == frame_rendered_spec(*old(self), rendered),
    {
        if rendered {
            self.frame_count = self.frame_count + 1;
        }
    }

    /// The statistics timer fired: returns the frames counted since the last report and
    /// restarts the count.
    pub fn stats_tick(&mut self) -> (frames: u64)
        ensures
            (*final(self), frames) == stats_tick_spec(*old(self)),
    {
        let frames = self.frame_count;
        self.frame_count = 0;
        frames
    }
}

/// The first render is tried once: after any iteration has started, later iterations
/// neither render nor request a frame on its account.
pub proof fn lemma_first_render_tried_once(s: FrameLoop, c1: bool, h1: bool, c2: bool, h2: bool)
    ensures
        begin_iteration_spec(s, c1, h1).0.first_render_attempted,
        begin_iteration_spec(begin_iteration_spec(s, c1, h1).0, c2, h2).1 == (FirstRenderPlan {
            request_frame: false,
            render: false,
        }),
{
}

/// A frame callback is requested only when mpv has new data and none is pending, and
/// afterwards one is pending.
pub proof fn lemma_one_frame_callback_at_a_time(s: FrameLoop, needs_render: bool, can_request_frame: bool)
    ensures
        frame_update_spec(s, needs_render, can_request_frame).1 ==> needs_render && !s.frame_pending
            && can_request_frame,
        frame_update_spec(s, needs_render, can_request_frame).0.frame_pending == (s.frame_pending
            || frame_update_spec(s, needs_render, can_request_frame).1),
{
}

/// One round of the steady loop while mpv keeps signalling new data: the pending frame
/// callback fires, a frame is rendered, and the next callback is requested.
pub open spec fn steady_round(s: FrameLoop) -> FrameLoop {
    frame_update_spec(frame_rendered_spec(frame_done_spec(s, true).0, true), true, true).0
}

/// `k` rounds of the steady loop.
pub open spec fn steady_rounds(s: FrameLoop, k: nat) -> FrameLoop
    decreases k,
{
    if k == 0 {
        s
    } else {
        steady_rounds(steady_round(s), (k - 1) as nat)
    }
}

/// While mpv keeps signalling new data and the surface exists, each frame callback leads
/// to a render and then to a request for the next callback.
pub proof fn lemma_each_callback_renders_and_requests_again(s: FrameLoop, rendered: bool)
    requires
        s.frame_pending,
        rendered ==> s.frame_count < u64::MAX,
    ensures
        frame_done_spec(s, true).1,
        !frame_done_spec(s, true).0.frame_pending,
        frame_update_spec(frame_rendered_spec(frame_done_spec(s, true).0, rendered), true, true).1,
        frame_update_spec(frame_rendered_spec(frame_done_spec(s, true).0, rendered), true, true).0.frame_pending,
{
}

/// Over `k` callbacks, each with a new frame from mpv, the loop renders `k` frames and
/// ends with the next callback requested: rendering never stops after the first frame.
pub proof fn lemma_rendering_continues(s: FrameLoop, k: nat)
    requires
        s.frame_pending,
        s.frame_count + k <= u64::MAX,
    ensures
        steady_rounds(s, k).frame_pending,
        steady_rounds(s, k).frame_count == s.frame_count + k,
    decreases k,
{
    if k > 0 {
        lemma_rendering_continues(steady_round(s), (k - 1) as nat);
    }
}

/// Rendering on a frame callback counts one frame exactly when a frame was rendered, from
/// any count, and touches nothing else; the first render counts the same way.
pub proof fn lemma_only_rendered_frames_count(s: FrameLoop)
    requires
        s.frame_count < u64::MAX,
    ensures
        frame_rendered_spec(s, false) == s,
        frame_rendered_spec(s, true).frame_count == s.frame_count + 1,
        frame_rendered_spec(s, true).frame_pending == s.frame_pending,
        frame_rendered_spec(s, true).first_render_attempted == s.first_render_attempted,
        frame_rendered_spec(s, true).first_frame_rendered == s.first_frame_rendered,
        first_render_done_spec(s, false).frame_count == s.frame_count,
        first_render_done_spec(s, true).frame_count == s.frame_count + 1,
        stats_tick_spec(frame_rendered_spec(s, false)).1 == s.frame_count,
        stats_tick_spec(frame_rendered_spec(s, true)).1 == s.frame_count + 1,
{
}

/// The count a statistics report gives is the number of frames rendered since the
/// previous report: it starts from zero and only a successful render adds one.
pub proof fn lemma_stats_count_rendered_frames(s: FrameLoop, rendered: bool)
    requires
        s.frame_count < u64::MAX,
    ensures
        stats_tick_spec(stats_tick_spec(s).0).1 == 0,
        stats_tick_spec(first_render_done_spec(stats_tick_spec(s).0, rendered)).1 == (if rendered { 1u64 } else { 0u64 }),
{
}

} // verus!
