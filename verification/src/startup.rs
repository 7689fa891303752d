//! The one-time setup phase: what is fatal, where the window is placed,
//! and the state the controller starts from once the window is shown.

use vstd::prelude::*;
use crate::controller::ControllerState;
use crate::position::OuterSize;
use crate::position::Position;
use crate::position::WorkArea;
use crate::position::top_right_position;
use crate::position::top_right_x;
use crate::position::top_right_y;

verus! {

/// A startup failure that aborts the process before the event loop runs:
/// a broken package or manifest, not a runtime condition a user can fix.
#[derive(Clone, Copy, Debug, PartialEq, Eq, Structural)]
pub enum StartupError {
    /// A tray menu entry or the menu itself could not be built.
    MenuConstruction,
    /// The tray icon could not be built.
    TrayConstruction,
    /// The framework's lookup of the main window found nothing.
    MainWindowMissing,
}

impl StartupError {
    /// The diagnostic the process aborts with.
    pub fn message(&self) -> (m: &'static str)
        ensures
            *self == StartupError::MenuConstruction ==> m@ == "failed to build tray menu"@,
            *self == StartupError::TrayConstruction ==> m@ == "failed to build tray icon"@,
            *self == StartupError::MainWindowMissing ==> m@ == "failed to get main window"@,
    {
        match self {
            StartupError::MenuConstruction => "failed to build tray menu",
            StartupError::TrayConstruction => "failed to build tray icon",
            StartupError::MainWindowMissing => "failed to get main window",
        }
    }
}

/// What setup asks the host framework to do with the main window, in
/// order: hide it first (so no flash is seen), apply the position if one
/// was computed, then show it.
#[derive(Clone, Copy, Debug, PartialEq, Eq, Structural)]
pub struct StartupPlan {
    /// Hide the window before anything else.
    pub hide_first: bool,
    /// The placement to apply, when both the monitor's work area and the
    /// window's outer size could be queried; `None` skips positioning.
    pub position: Option<Position>,
    /// Show the window at the end, whether or not it was positioned.
    pub show_after: bool,
}

/// A completed setup: the plan for the window, and the state the
/// controller is in once the plan has been carried out.
#[derive(Clone, Copy, Debug, PartialEq, Eq, Structural)]
pub struct StartupReady {
    pub plan: StartupPlan,
    pub state: ControllerState,
}

/// The placement setup computes: the top-right position when both
/// queries succeeded, none otherwise.
pub open spec fn planned_position(work: Option<WorkArea>, size: Option<OuterSize>) -> Option<
    Position,
> {
    match (work, size) {
        (Some(w), Some(sz)) => Some(
            Position { x: top_right_x(w, sz) as i64, y: top_right_y(w) as i64 },
        ),
        _ => None,
    }
}

/// The controller's state when setup is done: the main window was found,
/// is visible, and the process runs; nothing has asked for focus yet.
pub open spec fn started_state() -> ControllerState {
    ControllerState { window_present: true, visible: true, focused: false, running: true }
}

/// Decides the outcome of the setup phase from what the host framework
/// reported: whether the menu, the tray icon and the main window could
/// be had, and what the monitor and size queries returned.
///
/// Construction failures are fatal, in the order the pieces are built:
/// menu, then tray, then window lookup. Failed monitor or size queries
/// are not: positioning is skipped silently and the window is still
/// shown, so it is never left hidden indefinitely.
pub fn startup_outcome(
    menu_ok: bool,
    tray_ok: bool,
    window_found: bool,
    work: Option<WorkArea>,
    size: Option<OuterSize>,
) -> (r: Result<StartupReady, StartupError>)
    ensures
        r is Ok <==> menu_ok && tray_ok && window_found,
        !menu_ok ==> r == Result::<StartupReady, StartupError>::Err(StartupError::MenuConstruction),
        menu_ok && !tray_ok ==> r == Result::<StartupReady, StartupError>::Err(
            StartupError::TrayConstruction,
        ),
        menu_ok && tray_ok && !window_found ==> r == Result::<StartupReady, StartupError>::Err(
            StartupError::MainWindowMissing,
        ),
        r is Ok ==> r->Ok_0.plan.hide_first,
        r is Ok ==> r->Ok_0.plan.show_after,
        r is Ok ==> r->Ok_0.plan.position == planned_position(work, size),
        r is Ok ==> r->Ok_0.state == started_state(),
{
    if !menu_ok {
        return Err(StartupError::MenuConstruction);
    }
    if !tray_ok {
        return Err(StartupError::TrayConstruction);
    }
    if !window_found {
        return Err(StartupError::MainWindowMissing);
    }
    let position: Option<Position> = match (work, size) {
        (Some(w), Some(sz)) => Some(top_right_position(&w, &sz)),
        _ => None,
    };
    let plan = StartupPlan { hide_first: true, position, show_after: true };
    let state = ControllerState {
        window_present: true,
        visible: true,
        focused: false,
        running: true,
    };
    Ok(StartupReady { plan, state })
}

} // verus!
