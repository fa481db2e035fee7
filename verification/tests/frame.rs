use mpv_wallpaper::frame::{presentation_for, FirstRenderPlan, FrameLoop, Presentation};

#[test]
fn presentation_depends_on_frame_bit() {
    assert_eq!(presentation_for(0), Presentation::SwapOnly);
    assert_eq!(presentation_for(1), Presentation::RenderAndSwap);
    assert_eq!(presentation_for(2), Presentation::SwapOnly);
    assert_eq!(presentation_for(3), Presentation::RenderAndSwap);
}

#[test]
fn new_loop_is_fresh() {
    let l = FrameLoop::new();
    assert!(!l.first_render_attempted && !l.first_frame_rendered && !l.frame_pending);
    assert_eq!(l.frame_count, 0);
}

#[test]
fn first_iteration_requests_and_renders_once() {
    let mut l = FrameLoop::new();
    let plan = l.begin_iteration(true, true);
    assert_eq!(plan, FirstRenderPlan { request_frame: true, render: true });
    assert!(l.frame_pending);
    l.first_render_done(true);
    assert_eq!(l.frame_count, 1);
    assert!(l.first_frame_rendered);
    assert_eq!(l.begin_iteration(true, true), FirstRenderPlan { request_frame: false, render: false });
}

#[test]
fn first_iteration_without_surface() {
    let mut l = FrameLoop::new();
    assert_eq!(l.begin_iteration(false, true), FirstRenderPlan { request_frame: false, render: true });
    assert!(!l.frame_pending);
    l.first_render_done(false);
    assert_eq!(l.frame_count, 0);
    assert!(l.first_frame_rendered);
    assert!(l.frame_update(true, true));
    assert!(l.frame_pending);
    assert!(!l.frame_update(true, true));
}

#[test]
fn update_needs_data_and_surface() {
    let mut l = FrameLoop::new();
    l.begin_iteration(false, false);
    assert!(!l.frame_update(false, true));
    assert!(!l.frame_update(true, false));
    assert!(!l.frame_pending);
}

#[test]
fn stats_tick_reports_and_resets() {
    let mut l = FrameLoop::new();
    l.begin_iteration(true, true);
    l.first_render_done(true);
    assert_eq!(l.stats_tick(), 1);
    assert_eq!(l.stats_tick(), 0);
    assert!(l.frame_pending);
}

#[test]
fn each_callback_renders_and_requests_again() {
    let mut l = FrameLoop::new();
    let plan = l.begin_iteration(true, true);
    assert!(plan.request_frame && plan.render);
    l.first_render_done(true);
    for round in 0..10u64 {
        assert!(l.frame_pending);
        assert!(!l.frame_update(true, true));
        assert!(l.frame_done(true));
        assert!(!l.frame_pending);
        l.frame_rendered(true);
        assert_eq!(l.frame_count, round + 2);
        assert!(l.frame_update(true, true));
    }
    assert!(l.frame_pending);
}

#[test]
fn callback_without_renderer_or_new_frame() {
    let mut l = FrameLoop::new();
    l.begin_iteration(true, false);
    assert!(!l.frame_done(false));
    assert!(!l.frame_pending);
    assert!(l.frame_done(true));
    l.frame_rendered(false);
    assert_eq!(l.frame_count, 0);
    assert!(!l.frame_update(false, true));
    assert!(!l.frame_pending);
}
