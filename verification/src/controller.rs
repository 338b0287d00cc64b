//! The overlay's visibility: one state, changed by `show`, `hide` and the
//! hotkey's toggle.
//!
//! Each transition comes in two halves. The first looks at the state and at
//! what the window system reports, and plans. The caller carries the plan
//! out and reports how that ended; the second half then settles the state.
//! Whoever holds the state's lock holds it across both halves, so that no
//! other transition comes between them.

use crate::error::OverlayError;
use crate::supervisor::{shutdown_steps, HelperSupervisor, Platform, TeardownStep};
use crate::windows::{
    display_of, panel_layout, panel_window, require_display, ClosePlan, DisplayProbe, WindowLayout,
};
use vstd::prelude::*;

verus! {

/// The hotkey that toggles the overlay.
pub const TOGGLE_HOTKEY: &'static str = "Option+Space";

/// How long a `show` waits before the panel is constructed, in
/// milliseconds.
pub const SHOW_DELAY_MILLIS: u64 = 500;

/// The event on which the application shuts the helper down.
pub const CLOSE_REQUESTED_EVENT: &'static str = "tauri://close-requested";

/// The state of the overlay: whether the panel is shown, and the helper.
#[derive(Debug, PartialEq, Eq)]
pub struct OverlayState<P, I> {
    /// True exactly while the panel window exists.
    pub visible: bool,
    pub helper: HelperSupervisor<P, I>,
}

/// What showing the overlay takes.
#[derive(Clone, Copy, PartialEq, Eq, Structural, Debug)]
pub enum ShowPlan {
    /// The panel is shown already: there is nothing to do.
    AlreadyVisible,
    /// A panel window exists although the overlay counts as hidden: show
    /// that window instead of making a second one, then hand the focus
    /// back to the main window if there is one.
    Raise { refocus_main: bool },
    /// Construct and show the panel, then hand the focus back to the main
    /// window if there is one, so that the panel never keeps it.
    Open { panel: WindowLayout, refocus_main: bool },
}

/// How carrying out the `ClosePlan` of a `hide` ended.
#[derive(Clone, Debug, PartialEq, Eq)]
pub enum HideOutcome {
    /// Every window named by the plan is closed.
    Closed,
    /// The panel could not be closed; the dim layer was not touched.
    PanelFailed(String),
    /// The panel is closed as far as the plan asked, but the dim layer
    /// could not be closed.
    DimFailed(String),
}

/// The report with which a closing failed, if it was tried and failed.
pub open spec fn refusal(closed: Result<(), String>) -> Option<String> {
    match closed {
        Ok(_) => None,
        Err(report) => Some(report),
    }
}

/// Whether the dim layer is to be closed after the panel's turn: the plan
/// must ask for it, and the panel must not have made trouble.
pub open spec fn dim_is_due(plan: ClosePlan, panel_refuses: Option<String>) -> bool {
    plan.close_dim && !(plan.close_panel && panel_refuses is Some)
}

/// How carrying out a `ClosePlan` ends, given which closings would fail: the
/// panel is tried first, and the dim layer only when the panel made no
/// trouble.
pub open spec fn hide_outcome(
    plan: ClosePlan,
    panel_refuses: Option<String>,
    dim_refuses: Option<String>,
) -> HideOutcome {
    if plan.close_panel && panel_refuses is Some {
        HideOutcome::PanelFailed(panel_refuses->0)
    } else if plan.close_dim && dim_refuses is Some {
        HideOutcome::DimFailed(dim_refuses->0)
    } else {
        HideOutcome::Closed
    }
}

/// Says, once the panel had its turn, whether the dim layer is to be closed
/// now. `panel_closed` is how closing the panel ended, or success where the
/// plan did not ask for it.
pub fn dim_close_due(plan: ClosePlan, panel_closed: &Result<(), String>) -> (due: bool)
    ensures
        due == dim_is_due(plan, refusal(*panel_closed)),
{
    plan.close_dim && !(plan.close_panel && panel_closed.is_err())
}

/// Reads the outcome of a `hide` off the two closings. Each is how the
/// closing ended, or success where it was not tried.
pub fn settle_hide(
    plan: ClosePlan,
    panel_closed: Result<(), String>,
    dim_closed: Result<(), String>,
) -> (outcome: HideOutcome)
    ensures
        outcome == hide_outcome(plan, refusal(panel_closed), refusal(dim_closed)),
        admits(plan, outcome),
{
    match panel_closed {
        Err(report) => {
            if plan.close_panel {
                return HideOutcome::PanelFailed(report);
            }
        },
        Ok(_) => {},
    }
    match dim_closed {
        Err(report) => {
            if plan.close_dim {
                return HideOutcome::DimFailed(report);
            }
        },
        Ok(_) => {},
    }
    HideOutcome::Closed
}

/// What the hotkey does: it hides a visible overlay and shows a hidden one.
#[derive(Clone, Copy, PartialEq, Eq, Structural, Debug)]
pub enum TogglePlan {
    Show(ShowPlan),
    Hide(ClosePlan),
}

impl<P, I> OverlayState<P, I> {
    /// The plan for `show` in this state.
    pub open spec fn show_plan(
        &self,
        probe: DisplayProbe,
        main_open: bool,
        panel_open: bool,
    ) -> Result<ShowPlan, OverlayError> {
        if self.visible {
            Ok(ShowPlan::AlreadyVisible)
        } else if panel_open {
            Ok(ShowPlan::Raise { refocus_main: main_open })
        } else {
            match display_of(probe) {
                Ok(display) => Ok(
                    ShowPlan::Open { panel: panel_layout(display), refocus_main: main_open },
                ),
                Err(failure) => Err(failure),
            }
        }
    }

    /// The plan for `hide` in this state.
    pub open spec fn hide_plan(&self, panel_open: bool, dim_open: bool) -> ClosePlan {
        if self.visible {
            ClosePlan { close_panel: panel_open, close_dim: dim_open }
        } else {
            ClosePlan { close_panel: false, close_dim: false }
        }
    }

    /// The plan for the toggle in this state.
    pub open spec fn toggle_plan(
        &self,
        probe: DisplayProbe,
        main_open: bool,
        panel_open: bool,
        dim_open: bool,
    ) -> Result<TogglePlan, OverlayError> {
        if self.visible {
            Ok(TogglePlan::Hide(self.hide_plan(panel_open, dim_open)))
        } else {
            match self.show_plan(probe, main_open, panel_open) {
                Ok(plan) => Ok(TogglePlan::Show(plan)),
                Err(failure) => Err(failure),
            }
        }
    }

    /// What `show` reports after an attempt to open the panel.
    pub open spec fn show_report(opened: Result<(), String>) -> Result<(), OverlayError> {
        match opened {
            Ok(_) => Ok(()),
            Err(report) => Err(OverlayError::Os(report)),
        }
    }

    /// What `hide` reports after an attempt to close the windows.
    pub open spec fn hide_report(outcome: HideOutcome) -> Result<(), OverlayError> {
        match outcome {
            HideOutcome::Closed => Ok(()),
            HideOutcome::PanelFailed(report) => Err(OverlayError::Os(report)),
            HideOutcome::DimFailed(report) => Err(OverlayError::Os(report)),
        }
    }

    /// The state after an attempt to open the panel.
    pub open spec fn shown(self, opened: Result<(), String>) -> Self {
        match opened {
            Ok(_) => OverlayState { visible: true, helper: self.helper },
            Err(_) => self,
        }
    }

    /// The state after an attempt to close the windows.
    pub open spec fn hidden(self, outcome: HideOutcome) -> Self {
        match outcome {
            HideOutcome::PanelFailed(_) => self,
            _ => OverlayState { visible: false, helper: self.helper },
        }
    }

    /// Whether `show`, or a toggle that shows, has to know the display:
    /// only when a panel is to be constructed.
    pub open spec fn display_needed(&self, panel_open: bool) -> bool {
        !self.visible && !panel_open
    }

    /// Says whether the display has to be asked for before `plan_show` or
    /// `plan_toggle`. Where it need not, any probe gives the same plan.
    pub fn needs_display(&self, panel_open: bool) -> (needed: bool)
        ensures
            needed == self.display_needed(panel_open),
    {
        !self.visible && !panel_open
    }

    /// The initial state: nothing shown, no helper.
    pub fn new() -> (state: Self)
        ensures
            !state.visible,
            state.helper.handle is None,
    {
        OverlayState { visible: false, helper: HelperSupervisor::new() }
    }

    /// Plans `show`. A visible overlay needs nothing, whatever the window
    /// system reports. A panel window that exists is shown, never made a
    /// second time. Otherwise the panel is laid out on the primary display;
    /// without a display the transition does not begin.
    pub fn plan_show(
        &self,
        probe: DisplayProbe,
        main_open: bool,
        panel_open: bool,
    ) -> (plan: Result<ShowPlan, OverlayError>)
        ensures
            plan == self.show_plan(probe, main_open, panel_open),
    {
        if self.visible {
            Ok(ShowPlan::AlreadyVisible)
        } else if panel_open {
            Ok(ShowPlan::Raise { refocus_main: main_open })
        } else {
            match require_display(probe) {
                Ok(display) => Ok(
                    ShowPlan::Open { panel: panel_window(display), refocus_main: main_open },
                ),
                Err(failure) => Err(failure),
            }
        }
    }

    /// Settles `show` after the attempt to open or raise the panel. On
    /// success the overlay is visible. On failure the state is what it was
    /// and the system's report is passed on.
    pub fn finish_show(&mut self, opened: Result<(), String>) -> (done: Result<(), OverlayError>)
        ensures
            *final(self) == old(self).shown(opened),
            done == Self::show_report(opened),
    {
        match opened {
            Ok(_) => {
                self.visible = true;
                Ok(())
            },
            Err(report) => Err(OverlayError::Os(report)),
        }
    }

    /// Plans `hide`. A hidden overlay needs nothing. Otherwise the panel
    /// and the dim layer are closed as far as they exist: a window that is
    /// absent already is not asked for.
    pub fn plan_hide(&self, panel_open: bool, dim_open: bool) -> (plan: ClosePlan)
        ensures
            plan == self.hide_plan(panel_open, dim_open),
    {
        if self.visible {
            ClosePlan { close_panel: panel_open, close_dim: dim_open }
        } else {
            ClosePlan { close_panel: false, close_dim: false }
        }
    }

    /// Settles `hide`. When the panel could not be closed the state is what
    /// it was. In every other case the panel is gone and the overlay is
    /// hidden, also when closing the dim layer failed; that failure is
    /// still reported.
    pub fn finish_hide(&mut self, outcome: HideOutcome) -> (done: Result<(), OverlayError>)
        ensures
            *final(self) == old(self).hidden(outcome),
            done == Self::hide_report(outcome),
    {
        match outcome {
            HideOutcome::Closed => {
                self.visible = false;
                Ok(())
            },
            HideOutcome::PanelFailed(report) => Err(OverlayError::Os(report)),
            HideOutcome::DimFailed(report) => {
                self.visible = false;
                Err(OverlayError::Os(report))
            },
        }
    }

    /// Plans the toggle: `hide` for a visible overlay, `show` for a hidden
    /// one, decided on the same look at the state that the plan is made
    /// from.
    pub fn plan_toggle(
        &self,
        probe: DisplayProbe,
        main_open: bool,
        panel_open: bool,
        dim_open: bool,
    ) -> (plan: Result<TogglePlan, OverlayError>)
        ensures
            plan == self.toggle_plan(probe, main_open, panel_open, dim_open),
    {
        if self.visible {
            Ok(TogglePlan::Hide(self.plan_hide(panel_open, dim_open)))
        } else {
            match self.plan_show(probe, main_open, panel_open) {
                Ok(plan) => Ok(TogglePlan::Show(plan)),
                Err(failure) => Err(failure),
            }
        }
    }

    /// The shutdown hook: gives up the helper, whatever the state. The
    /// windows are left to the window system.
    pub fn shutdown(&mut self, platform: Platform) -> (steps: Vec<TeardownStep<P, I>>)
        ensures
            final(self).helper.handle is None,
            final(self).visible == old(self).visible,
            steps@ == shutdown_steps(old(self).helper.handle, platform),
    {
        self.helper.shutdown(platform)
    }
}

impl<P, I> Default for OverlayState<P, I> {
    fn default() -> (state: Self)
        ensures
            !state.visible,
            state.helper.handle is None,
    {
        OverlayState::new()
    }
}

/// Whether carrying out `plan` can end in `outcome`: a window that the plan
/// does not close cannot fail to close.
pub open spec fn admits(plan: ClosePlan, outcome: HideOutcome) -> bool {
    match outcome {
        HideOutcome::Closed => true,
        HideOutcome::PanelFailed(_) => plan.close_panel,
        HideOutcome::DimFailed(_) => plan.close_dim,
    }
}

/// Which windows exist, as the window system has it.
pub ghost struct Desktop {
    pub panel_open: bool,
    pub dim_open: bool,
    pub main_open: bool,
}

impl Desktop {
    /// The windows after a `ShowPlan` was carried out: the panel exists if
    /// it was to be opened and that succeeded. A failed construction leaves
    /// no window behind, and raising a window makes none.
    pub open spec fn after_show(self, plan: ShowPlan, opened: Result<(), String>) -> Desktop {
        match plan {
            ShowPlan::AlreadyVisible => self,
            ShowPlan::Raise { .. } => self,
            ShowPlan::Open { .. } => if opened is Ok {
                Desktop { panel_open: true, ..self }
            } else {
                self
            },
        }
    }

    /// The windows after a `ClosePlan` was carried out: a window is gone if
    /// the plan closes it and the closing was reached and succeeded.
    pub open spec fn after_hide(self, plan: ClosePlan, outcome: HideOutcome) -> Desktop {
        match outcome {
            HideOutcome::Closed => Desktop {
                panel_open: self.panel_open && !plan.close_panel,
                dim_open: self.dim_open && !plan.close_dim,
                ..self
            },
            HideOutcome::PanelFailed(_) => self,
            HideOutcome::DimFailed(_) => Desktop {
                panel_open: self.panel_open && !plan.close_panel,
                ..self
            },
        }
    }

    /// The state and the window system agree: the overlay counts as visible
    /// exactly when the panel window exists.
    pub open spec fn agrees_with<P, I>(self, state: OverlayState<P, I>) -> bool {
        state.visible == self.panel_open
    }
}

/// Hiding a hidden overlay is a no-op that succeeds: nothing is closed and
/// the state is what it was.
pub proof fn lemma_hide_when_hidden_is_noop<P, I>(
    state: OverlayState<P, I>,
    panel_open: bool,
    dim_open: bool,
)
    requires
        !state.visible,
    ensures
        state.hide_plan(panel_open, dim_open) == (ClosePlan {
            close_panel: false,
            close_dim: false,
        }),
        state.hidden(HideOutcome::Closed) == state,
        OverlayState::<P, I>::hide_report(HideOutcome::Closed) is Ok,
{
}

/// Showing twice opens one panel. Once a show has succeeded, the plan of
/// the next show is to do nothing, whatever the window system reports; and
/// in no state does a show plan to open a panel while a panel window exists.
pub proof fn lemma_show_twice_opens_once<P, I>(
    state: OverlayState<P, I>,
    opened: Result<(), String>,
    probe: DisplayProbe,
    main_open: bool,
    panel_open: bool,
)
    ensures
        opened is Ok ==> state.shown(opened).show_plan(probe, main_open, panel_open) == Ok::<
            ShowPlan,
            OverlayError,
        >(ShowPlan::AlreadyVisible),
        opened is Ok ==> state.shown(opened).shown(opened) == state.shown(opened),
        state.show_plan(probe, main_open, panel_open) matches Ok(ShowPlan::Open { .. })
            ==> !panel_open && !state.visible,
{
}

/// Where the display is not needed, the plans of `show` and of the toggle
/// are the same whatever the probe says, so the display need not be asked.
pub proof fn lemma_plan_ignores_unneeded_display<P, I>(
    state: OverlayState<P, I>,
    one: DisplayProbe,
    other: DisplayProbe,
    main_open: bool,
    panel_open: bool,
    dim_open: bool,
)
    requires
        !state.display_needed(panel_open),
    ensures
        state.show_plan(one, main_open, panel_open) == state.show_plan(
            other,
            main_open,
            panel_open,
        ),
        state.show_plan(one, main_open, panel_open) is Ok,
        state.toggle_plan(one, main_open, panel_open, dim_open) == state.toggle_plan(
            other,
            main_open,
            panel_open,
            dim_open,
        ),
        state.toggle_plan(one, main_open, panel_open, dim_open) is Ok,
{
}

/// `show` keeps the state and the window system in agreement, however the
/// attempt to open the panel ends, and leaves a hidden overlay hidden when
/// it fails.
pub proof fn lemma_show_keeps_agreement<P, I>(
    state: OverlayState<P, I>,
    desktop: Desktop,
    probe: DisplayProbe,
    opened: Result<(), String>,
)
    requires
        desktop.agrees_with(state),
    ensures
        (match state.show_plan(probe, desktop.main_open, desktop.panel_open) {
            Ok(ShowPlan::AlreadyVisible) => state.visible,
            Ok(plan) => {
                &&& plan is Open
                &&& desktop.after_show(plan, opened).agrees_with(state.shown(opened))
                &&& opened is Err ==> state.shown(opened) == state
            },
            Err(_) => !state.visible,
        }),
{
}

/// `hide` keeps the state and the window system in agreement, however the
/// closing ends: the overlay never counts as visible with the panel gone,
/// nor as hidden with the panel still there.
pub proof fn lemma_hide_keeps_agreement<P, I>(
    state: OverlayState<P, I>,
    desktop: Desktop,
    outcome: HideOutcome,
)
    requires
        desktop.agrees_with(state),
        admits(state.hide_plan(desktop.panel_open, desktop.dim_open), outcome),
    ensures
        desktop.after_hide(
            state.hide_plan(desktop.panel_open, desktop.dim_open),
            outcome,
        ).agrees_with(state.hidden(outcome)),
{
}

/// The toggle is `hide` on a visible overlay and `show` on a hidden one,
/// so it keeps the agreement as they do, and flips the visibility whenever
/// its plan is carried out in full.
pub proof fn lemma_toggle_flips<P, I>(
    state: OverlayState<P, I>,
    desktop: Desktop,
    probe: DisplayProbe,
)
    requires
        desktop.agrees_with(state),
    ensures
        (match state.toggle_plan(probe, desktop.main_open, desktop.panel_open, desktop.dim_open) {
            Ok(TogglePlan::Hide(plan)) => {
                &&& state.visible
                &&& plan == state.hide_plan(desktop.panel_open, desktop.dim_open)
                &&& !state.hidden(HideOutcome::Closed).visible
                &&& desktop.after_hide(plan, HideOutcome::Closed).agrees_with(
                    state.hidden(HideOutcome::Closed),
                )
            },
            Ok(TogglePlan::Show(plan)) => {
                &&& !state.visible
                &&& Ok::<ShowPlan, OverlayError>(plan) == state.show_plan(
                    probe,
                    desktop.main_open,
                    desktop.panel_open,
                )
                &&& plan is Open
                &&& state.shown(Ok(())).visible
                &&& desktop.after_show(plan, Ok(())).agrees_with(state.shown(Ok(())))
            },
            Err(_) => !state.visible,
        }),
{
}

} // verus!
