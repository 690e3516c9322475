use cubefield::surface::{
    choose_present_mode, react, recover, surface_extent, time_instances, AcquireFailure,
    LoopAction, PresentMode, Recovery, WindowSignal,
};

#[test]
fn mailbox_is_preferred() {
    let supported = vec![PresentMode::Fifo, PresentMode::Immediate, PresentMode::Mailbox];
    assert_eq!(choose_present_mode(&supported), PresentMode::Mailbox);
    assert_eq!(choose_present_mode(&vec![PresentMode::Mailbox]), PresentMode::Mailbox);
}

#[test]
fn immediate_is_second() {
    let supported = vec![PresentMode::Immediate, PresentMode::Fifo, PresentMode::FifoRelaxed];
    assert_eq!(choose_present_mode(&supported), PresentMode::Immediate);
}

#[test]
fn first_in_first_out_is_the_fallback() {
    assert_eq!(choose_present_mode(&vec![PresentMode::Fifo]), PresentMode::Fifo);
    assert_eq!(choose_present_mode(&vec![PresentMode::FifoRelaxed]), PresentMode::Fifo);
    assert_eq!(
        choose_present_mode(&vec![PresentMode::AutoVsync, PresentMode::AutoNoVsync]),
        PresentMode::Fifo
    );
    assert_eq!(choose_present_mode(&Vec::new()), PresentMode::Fifo);
}

#[test]
fn a_surface_is_at_least_one_pixel_each_way() {
    assert_eq!(surface_extent(1920, 1080), (1920, 1080));
    assert_eq!(surface_extent(0, 1080), (1, 1080));
    assert_eq!(surface_extent(1920, 0), (1920, 1));
    assert_eq!(surface_extent(0, 0), (1, 1));
    assert_eq!(surface_extent(1, 1), (1, 1));
    assert_eq!(surface_extent(u32::MAX, u32::MAX), (u32::MAX, u32::MAX));
}

#[test]
fn closing_and_escape_leave_the_loop() {
    assert_eq!(react(true, WindowSignal::CloseRequested), LoopAction::Exit);
    assert_eq!(react(true, WindowSignal::EscapePressed), LoopAction::Exit);
}

#[test]
fn a_new_size_configures_the_surface() {
    assert_eq!(
        react(true, WindowSignal::Resized { width: 800, height: 600 }),
        LoopAction::Reconfigure { width: 800, height: 600 }
    );
    assert_eq!(
        react(true, WindowSignal::Resized { width: 0, height: 0 }),
        LoopAction::Reconfigure { width: 1, height: 1 }
    );
}

#[test]
fn a_redraw_draws_a_frame() {
    assert_eq!(react(true, WindowSignal::RedrawRequested), LoopAction::DrawFrame);
    assert_eq!(react(true, WindowSignal::Other), LoopAction::Ignore);
}

#[test]
fn nothing_happens_before_the_renderer_is_set_up() {
    for signal in [
        WindowSignal::CloseRequested,
        WindowSignal::EscapePressed,
        WindowSignal::Resized { width: 800, height: 600 },
        WindowSignal::RedrawRequested,
        WindowSignal::Other,
    ] {
        assert_eq!(react(false, signal), LoopAction::Ignore);
    }
}

#[test]
fn failures_are_recovered_from_by_their_kind() {
    assert_eq!(recover(AcquireFailure::Outdated), Recovery::Reconfigure);
    assert_eq!(recover(AcquireFailure::Lost), Recovery::Reconfigure);
    assert_eq!(recover(AcquireFailure::OutOfMemory), Recovery::Terminate);
    assert_eq!(recover(AcquireFailure::Timeout), Recovery::SkipFrame);
    assert_eq!(recover(AcquireFailure::Other), Recovery::SkipFrame);
}

#[test]
fn the_time_of_a_frame_is_one_instance() {
    assert_eq!(time_instances(0), (0, 1));
    assert_eq!(time_instances(1_500), (1_500, 1_501));
    assert_eq!(time_instances(0xffff_fffe), (0xffff_fffe, 0xffff_ffff));
}

#[test]
fn the_time_of_a_frame_wraps_with_the_count() {
    assert_eq!(time_instances(0xffff_ffff), (0xffff_ffff, 0));
    assert_eq!(time_instances(0x1_0000_0000), (0, 1));
    assert_eq!(time_instances(0x1_0000_0007), (7, 8));
    assert_eq!(time_instances(u128::MAX), (0xffff_ffff, 0));
}
