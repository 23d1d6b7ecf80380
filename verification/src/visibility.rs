//! Cross-thread visibility: the state machine that ties the hotkey thread's
//! toggle to the UI thread's window.
//!
//! The hotkey thread flips a shared boolean flag and wakes the UI thread;
//! the UI thread re-reads the flag on every wake and reconciles the overlay
//! window with it: it creates the window (sized to the primary display read
//! at that moment) on a transition to shown, and releases it on a transition
//! to hidden. Wake notifications may be coalesced, so the reconciliation
//! depends only on the flag's current value, never on how many toggles
//! preceded the wake. A close request on the overlay window exits the whole
//! process.

use vstd::prelude::*;

verus! {

/// The size of a window or of the primary display, in physical pixels.
#[derive(Clone, Copy, PartialEq, Eq, Structural, Debug)]
pub struct WindowGeometry {
    pub width: u32,
    pub height: u32,
}

/// The UI thread's side of the overlay: the window it currently holds, if
/// any. At most one window ever exists.
pub struct OverlayState {
    pub window: Option<WindowGeometry>,
}

/// What the UI thread must do to reconcile the overlay with the flag.
#[derive(Clone, Copy, PartialEq, Eq, Structural, Debug)]
pub enum SyncAction {
    /// Create the overlay window with the given size and draw a first
    /// (cleared) frame.
    Create(WindowGeometry),
    /// Hide and release the window and its drawing surface.
    Hide,
    /// Nothing changes: the window already matches the flag.
    Keep,
}

/// The flag value after the toggle combination fires.
pub open spec fn toggle_spec(shown: bool) -> bool {
    !shown
}

/// Flip the visibility flag: the hotkey thread's toggle action.
pub fn toggle_flag(shown: bool) -> (r: bool)
    ensures
        r == toggle_spec(shown),
{
    !shown
}

/// The overlay state after the UI thread reconciles with the flag: hidden
/// means no window; shown keeps an existing window and otherwise creates
/// one sized to the display geometry read at that moment.
pub open spec fn sync_state_spec(s: OverlayState, shown: bool, monitor: WindowGeometry) -> OverlayState {
    if !shown {
        OverlayState { window: None }
    } else if s.window is Some {
        s
    } else {
        OverlayState { window: Some(monitor) }
    }
}

/// The action the reconciliation takes alongside `sync_state_spec`.
pub open spec fn sync_action_spec(s: OverlayState, shown: bool, monitor: WindowGeometry) -> SyncAction {
    if !shown {
        if s.window is Some {
            SyncAction::Hide
        } else {
            SyncAction::Keep
        }
    } else if s.window is Some {
        SyncAction::Keep
    } else {
        SyncAction::Create(monitor)
    }
}

/// How many windows a state holds: never more than one.
pub open spec fn window_count(s: OverlayState) -> int {
    if s.window is Some {
        1
    } else {
        0
    }
}

impl OverlayState {
    /// The starting state: no window yet.
    pub fn new() -> (s: OverlayState)
        ensures
            s.window is None,
    {
        OverlayState { window: None }
    }

    /// Reconcile the overlay with the visibility flag, using the display
    /// geometry read on this wake, and say what the UI thread must do.
    pub fn sync(&mut self, shown: bool, monitor: WindowGeometry) -> (action: SyncAction)
        ensures
            *final(self) == sync_state_spec(*old(self), shown, monitor),
            action == sync_action_spec(*old(self), shown, monitor),
    {
        if !shown {
            if self.window.is_some() {
                self.window = None;
                SyncAction::Hide
            } else {
                SyncAction::Keep
            }
        } else if self.window.is_some() {
            SyncAction::Keep
        } else {
            self.window = Some(monitor);
            SyncAction::Create(monitor)
        }
    }
}

/// Toggling the flag twice before the UI thread wakes is a net-zero
/// transition: the coalesced wake reconciles to exactly the state a wake
/// under the original flag would reach, and no reachable state holds more
/// than one window.
pub proof fn lemma_double_toggle_net_zero(s: OverlayState, shown: bool, monitor: WindowGeometry)
    ensures
        sync_state_spec(s, toggle_spec(toggle_spec(shown)), monitor) == sync_state_spec(
            s,
            shown,
            monitor,
        ),
        sync_action_spec(s, toggle_spec(toggle_spec(shown)), monitor) == sync_action_spec(
            s,
            shown,
            monitor,
        ),
        window_count(sync_state_spec(s, shown, monitor)) <= 1,
{
}

/// A shown transition reads the display geometry afresh: after a hide, the
/// next shown transition sizes the window to the geometry current then,
/// whatever the earlier window's size was.
pub proof fn lemma_reshow_uses_current_geometry(
    s: OverlayState,
    first: WindowGeometry,
    while_hidden: WindowGeometry,
    second: WindowGeometry,
)
    ensures
        ({
            let shown1 = sync_state_spec(s, true, first);
            let hidden = sync_state_spec(shown1, false, while_hidden);
            let shown2 = sync_state_spec(hidden, true, second);
            shown2.window == Some(second)
        }),
{
}

/// A window event, as far as the overlay's behavior depends on it.
#[derive(Clone, Copy, PartialEq, Eq, Structural, Debug)]
pub enum UiEvent {
    /// The OS asked the window to close.
    CloseRequested,
    /// The window should paint a frame.
    RedrawRequested,
    /// Anything else.
    Other,
}

/// What the UI thread does with a window event.
#[derive(Clone, Copy, PartialEq, Eq, Structural, Debug)]
pub enum EventDecision {
    /// Leave the event loop and terminate the whole process.
    ExitProcess,
    /// Run the redraw path.
    Redraw,
    /// Ignore the event.
    Ignore,
}

/// The decision for a window event: a close request on the overlay's own
/// window exits the whole process (never merely hides the overlay), a
/// redraw request on it paints, and everything else — including any event
/// for a window the overlay does not own — is ignored.
pub open spec fn window_event_decision_spec(own_window: bool, event: UiEvent) -> EventDecision {
    if !own_window {
        EventDecision::Ignore
    } else if event is CloseRequested {
        EventDecision::ExitProcess
    } else if event is RedrawRequested {
        EventDecision::Redraw
    } else {
        EventDecision::Ignore
    }
}

/// Decide what the UI thread does with a window event. `own_window` says
/// whether the event's window is the overlay window this thread holds.
pub fn decide_window_event(own_window: bool, event: UiEvent) -> (d: EventDecision)
    ensures
        d == window_event_decision_spec(own_window, event),
{
    if !own_window {
        EventDecision::Ignore
    } else {
        match event {
            UiEvent::CloseRequested => EventDecision::ExitProcess,
            UiEvent::RedrawRequested => EventDecision::Redraw,
            UiEvent::Other => EventDecision::Ignore,
        }
    }
}

/// The redraw path's plan for one tick.
#[derive(Clone, Copy, PartialEq, Eq, Structural, Debug)]
pub enum RedrawPlan {
    /// The overlay is hidden: draw nothing and request no further redraw.
    SkipHidden,
    /// Draw and present a frame, after resizing the drawing surface if the
    /// window's size changed since the last frame.
    Draw { resize: bool },
}

/// The plan for a redraw tick: skip everything while hidden; otherwise
/// draw, resizing the surface first exactly when the window size changed.
pub open spec fn redraw_plan_spec(shown: bool, size: WindowGeometry, last_size: WindowGeometry) -> RedrawPlan {
    if !shown {
        RedrawPlan::SkipHidden
    } else {
        RedrawPlan::Draw { resize: size != last_size }
    }
}

/// Decide the redraw path for one tick from the flag and the window sizes.
pub fn plan_redraw(shown: bool, size: WindowGeometry, last_size: WindowGeometry) -> (plan: RedrawPlan)
    ensures
        plan == redraw_plan_spec(shown, size, last_size),
{
    if !shown {
        RedrawPlan::SkipHidden
    } else {
        RedrawPlan::Draw {
            resize: size.width != last_size.width || size.height != last_size.height,
        }
    }
}

/// Whether a fetched pixel buffer matches the surface: a frame is drawn
/// only into a buffer of exactly `width * height` pixels; a stale length
/// (a resize race) skips the frame until the next tick.
pub fn buffer_matches(buffer_len: usize, size: WindowGeometry) -> (r: bool)
    requires
        size.width as int * size.height as int <= usize::MAX as int,
    ensures
        r == (buffer_len == size.width as int * size.height as int),
{
    buffer_len == (size.width as usize) * (size.height as usize)
}

} // verus!
