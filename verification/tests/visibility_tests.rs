use vimbrowse::visibility::{
    buffer_matches, decide_window_event, plan_redraw, toggle_flag, EventDecision, OverlayState,
    RedrawPlan, SyncAction, UiEvent, WindowGeometry,
};

#[test]
fn first_shown_transition_creates_the_window() {
    let mut state = OverlayState::new();
    let monitor = WindowGeometry { width: 800, height: 600 };
    let action = state.sync(true, monitor);
    assert_eq!(action, SyncAction::Create(monitor));
    assert_eq!(state.window, Some(monitor));
}

#[test]
fn hidden_transition_releases_the_window() {
    let mut state = OverlayState::new();
    let monitor = WindowGeometry { width: 800, height: 600 };
    state.sync(true, monitor);
    let action = state.sync(false, monitor);
    assert_eq!(action, SyncAction::Hide);
    assert_eq!(state.window, None);
    // Hiding while already hidden changes nothing.
    assert_eq!(state.sync(false, monitor), SyncAction::Keep);
    assert_eq!(state.window, None);
}

#[test]
fn double_toggle_before_the_wake_is_net_zero() {
    // Two rapid toggles collapse into one wake: the flag is back where it
    // started, the single reconciliation keeps the overlay as it was, and
    // only one window ever exists.
    let monitor = WindowGeometry { width: 800, height: 600 };
    let mut shown = true;
    let mut state = OverlayState::new();
    state.sync(shown, monitor);
    assert_eq!(state.window, Some(monitor));

    shown = toggle_flag(shown);
    shown = toggle_flag(shown);
    assert!(shown);
    let action = state.sync(shown, monitor);
    assert_eq!(action, SyncAction::Keep);
    assert_eq!(state.window, Some(monitor));
}

#[test]
fn double_toggle_while_hidden_stays_hidden() {
    let monitor = WindowGeometry { width: 800, height: 600 };
    let mut shown = false;
    let mut state = OverlayState::new();
    shown = toggle_flag(shown);
    shown = toggle_flag(shown);
    assert!(!shown);
    assert_eq!(state.sync(shown, monitor), SyncAction::Keep);
    assert_eq!(state.window, None);
}

#[test]
fn reshow_after_resize_uses_the_new_geometry() {
    // The display is resized between two shown transitions: the second
    // window is sized to the new geometry, not the old one.
    let old_size = WindowGeometry { width: 800, height: 600 };
    let new_size = WindowGeometry { width: 1024, height: 768 };
    let mut state = OverlayState::new();
    state.sync(true, old_size);
    assert_eq!(state.window, Some(old_size));
    state.sync(false, old_size);
    let action = state.sync(true, new_size);
    assert_eq!(action, SyncAction::Create(new_size));
    assert_eq!(state.window, Some(new_size));
}

#[test]
fn close_request_exits_the_whole_process() {
    // Closing the overlay window terminates the process, never merely
    // hides the overlay.
    assert_eq!(
        decide_window_event(true, UiEvent::CloseRequested),
        EventDecision::ExitProcess
    );
}

#[test]
fn events_for_foreign_windows_are_ignored() {
    assert_eq!(decide_window_event(false, UiEvent::CloseRequested), EventDecision::Ignore);
    assert_eq!(decide_window_event(false, UiEvent::RedrawRequested), EventDecision::Ignore);
}

#[test]
fn redraw_request_draws() {
    assert_eq!(decide_window_event(true, UiEvent::RedrawRequested), EventDecision::Redraw);
    assert_eq!(decide_window_event(true, UiEvent::Other), EventDecision::Ignore);
}

#[test]
fn redraw_plan_skips_while_hidden() {
    let size = WindowGeometry { width: 800, height: 600 };
    assert_eq!(plan_redraw(false, size, size), RedrawPlan::SkipHidden);
}

#[test]
fn redraw_plan_resizes_exactly_on_size_change() {
    let last = WindowGeometry { width: 800, height: 600 };
    let same = WindowGeometry { width: 800, height: 600 };
    let grown = WindowGeometry { width: 1024, height: 768 };
    assert_eq!(plan_redraw(true, same, last), RedrawPlan::Draw { resize: false });
    assert_eq!(plan_redraw(true, grown, last), RedrawPlan::Draw { resize: true });
}

#[test]
fn stale_buffers_are_detected() {
    let size = WindowGeometry { width: 8, height: 6 };
    assert!(buffer_matches(48, size));
    assert!(!buffer_matches(47, size));
    assert!(!buffer_matches(0, size));
}
