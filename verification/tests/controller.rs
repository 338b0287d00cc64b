use overlay_supervisor::controller::{
    dim_close_due, settle_hide, HideOutcome, OverlayState, ShowPlan, TogglePlan,
    CLOSE_REQUESTED_EVENT, SHOW_DELAY_MILLIS, TOGGLE_HOTKEY,
};
use overlay_supervisor::error::OverlayError;
use overlay_supervisor::supervisor::{HelperHandle, Platform, TeardownStep};
use overlay_supervisor::windows::{panel_window, ClosePlan, DisplaySize};

type State = OverlayState<u32, u32>;

const DISPLAY: DisplaySize = DisplaySize { width: 1920, height: 1080 };

fn visible_state() -> State {
    let mut state = State::new();
    assert_eq!(state.finish_show(Ok(())), Ok(()));
    state
}

#[test]
fn initial_state_is_hidden_without_helper() {
    let state = State::new();
    assert!(!state.visible);
    assert_eq!(state.helper.handle, None);
    assert_eq!(State::default(), state);
}

#[test]
fn show_opens_the_panel_and_hands_back_the_focus() {
    let mut state = State::new();
    assert_eq!(
        state.plan_show(Ok(Some(DISPLAY)), true, false),
        Ok(ShowPlan::Open { panel: panel_window(DISPLAY), refocus_main: true })
    );
    assert!(!state.visible);
    assert_eq!(state.finish_show(Ok(())), Ok(()));
    assert!(state.visible);
}

#[test]
fn show_without_main_window_keeps_the_focus_where_it_is() {
    let state = State::new();
    assert_eq!(
        state.plan_show(Ok(Some(DISPLAY)), false, false),
        Ok(ShowPlan::Open { panel: panel_window(DISPLAY), refocus_main: false })
    );
}

#[test]
fn show_twice_opens_one_panel() {
    let mut state = State::new();
    assert!(matches!(state.plan_show(Ok(Some(DISPLAY)), true, false), Ok(ShowPlan::Open { .. })));
    assert_eq!(state.finish_show(Ok(())), Ok(()));
    assert_eq!(state.plan_show(Ok(Some(DISPLAY)), true, true), Ok(ShowPlan::AlreadyVisible));
    assert_eq!(state.plan_show(Ok(None), true, true), Ok(ShowPlan::AlreadyVisible));
    assert_eq!(
        state.plan_show(Err("no screen".to_string()), false, false),
        Ok(ShowPlan::AlreadyVisible)
    );
}

#[test]
fn show_raises_a_panel_that_exists() {
    let state = State::new();
    assert_eq!(state.plan_show(Ok(None), true, true), Ok(ShowPlan::Raise { refocus_main: true }));
}

#[test]
fn show_needs_a_display() {
    let state = State::new();
    assert_eq!(state.plan_show(Ok(None), true, false), Err(OverlayError::NoDisplay));
    assert_eq!(
        state.plan_show(Err("no screen".to_string()), true, false),
        Err(OverlayError::Os("no screen".to_string()))
    );
}

#[test]
fn failed_show_leaves_the_overlay_hidden() {
    let mut state = State::new();
    assert_eq!(
        state.finish_show(Err("cannot build".to_string())),
        Err(OverlayError::Os("cannot build".to_string()))
    );
    assert_eq!(state, State::new());
}

#[test]
fn hide_closes_the_windows_that_exist() {
    let mut state = visible_state();
    assert_eq!(state.plan_hide(true, true), ClosePlan { close_panel: true, close_dim: true });
    assert_eq!(state.plan_hide(true, false), ClosePlan { close_panel: true, close_dim: false });
    assert_eq!(state.plan_hide(false, false), ClosePlan { close_panel: false, close_dim: false });
    assert_eq!(state.finish_hide(HideOutcome::Closed), Ok(()));
    assert!(!state.visible);
}

#[test]
fn hide_when_hidden_is_a_no_op() {
    let mut state = State::new();
    assert_eq!(state.plan_hide(true, true), ClosePlan { close_panel: false, close_dim: false });
    assert_eq!(state.finish_hide(HideOutcome::Closed), Ok(()));
    assert_eq!(state, State::new());
}

#[test]
fn hide_that_cannot_close_the_panel_changes_nothing() {
    let mut state = visible_state();
    assert_eq!(
        state.finish_hide(HideOutcome::PanelFailed("busy".to_string())),
        Err(OverlayError::Os("busy".to_string()))
    );
    assert!(state.visible);
}

#[test]
fn hide_that_cannot_close_the_dim_layer_still_hides() {
    let mut state = visible_state();
    assert_eq!(
        state.finish_hide(HideOutcome::DimFailed("busy".to_string())),
        Err(OverlayError::Os("busy".to_string()))
    );
    assert!(!state.visible);
}

#[test]
fn toggle_shows_a_hidden_overlay() {
    let state = State::new();
    assert_eq!(
        state.plan_toggle(Ok(Some(DISPLAY)), true, false, false),
        Ok(TogglePlan::Show(ShowPlan::Open { panel: panel_window(DISPLAY), refocus_main: true }))
    );
    assert_eq!(state.plan_toggle(Ok(None), true, false, false), Err(OverlayError::NoDisplay));
}

#[test]
fn toggle_hides_a_visible_overlay() {
    let state = visible_state();
    assert_eq!(
        state.plan_toggle(Ok(None), true, true, true),
        Ok(TogglePlan::Hide(ClosePlan { close_panel: true, close_dim: true }))
    );
}

#[test]
fn toggle_twice_returns_to_hidden() {
    let mut state = State::new();
    assert!(matches!(
        state.plan_toggle(Ok(Some(DISPLAY)), false, false, false),
        Ok(TogglePlan::Show(_))
    ));
    assert_eq!(state.finish_show(Ok(())), Ok(()));
    assert!(matches!(
        state.plan_toggle(Ok(Some(DISPLAY)), false, true, false),
        Ok(TogglePlan::Hide(_))
    ));
    assert_eq!(state.finish_hide(HideOutcome::Closed), Ok(()));
    assert_eq!(state, State::new());
}

#[test]
fn transitions_leave_the_helper_alone() {
    let mut state = State::new();
    state.helper.install(HelperHandle { process: 5, input_pipe: 6 });
    assert_eq!(state.finish_show(Ok(())), Ok(()));
    assert_eq!(state.helper.handle, Some(HelperHandle { process: 5, input_pipe: 6 }));
    assert_eq!(state.finish_hide(HideOutcome::Closed), Ok(()));
    assert_eq!(state.helper.handle, Some(HelperHandle { process: 5, input_pipe: 6 }));
}

#[test]
fn shutdown_gives_the_helper_up_in_every_state() {
    let mut state = visible_state();
    state.helper.install(HelperHandle { process: 5, input_pipe: 6 });
    assert_eq!(
        state.shutdown(Platform::MacOs),
        vec![TeardownStep::ClosePipe(6), TeardownStep::Kill(5), TeardownStep::Sweep]
    );
    assert_eq!(state.helper.handle, None);
    assert!(state.visible);

    let mut state = State::new();
    assert_eq!(state.shutdown(Platform::MacOs), vec![TeardownStep::Sweep]);
    assert_eq!(state.helper.handle, None);
    assert!(!state.visible);
}

#[test]
fn bindings() {
    assert_eq!(TOGGLE_HOTKEY, "Option+Space");
    assert_eq!(CLOSE_REQUESTED_EVENT, "tauri://close-requested");
    assert_eq!(SHOW_DELAY_MILLIS, 500);
}

/// A window system that exists only in the test: it keeps track of which
/// windows are open and fails where it is told to.
struct FakeDesktop {
    panel_open: bool,
    dim_open: bool,
    fail_open: bool,
    fail_close_panel: bool,
    fail_close_dim: bool,
}

impl FakeDesktop {
    fn new() -> Self {
        FakeDesktop {
            panel_open: false,
            dim_open: false,
            fail_open: false,
            fail_close_panel: false,
            fail_close_dim: false,
        }
    }

    fn run_show(&mut self, state: &mut State) -> Result<(), OverlayError> {
        match state.plan_show(Ok(Some(DISPLAY)), true, self.panel_open)? {
            ShowPlan::AlreadyVisible => Ok(()),
            ShowPlan::Raise { .. } => state.finish_show(Ok(())),
            ShowPlan::Open { .. } => {
                let opened = if self.fail_open {
                    Err("cannot build".to_string())
                } else {
                    assert!(!self.panel_open, "a second panel would be opened");
                    self.panel_open = true;
                    Ok(())
                };
                state.finish_show(opened)
            }
        }
    }

    fn close(&mut self, wanted: bool, panel: bool) -> Result<(), String> {
        if !wanted {
            return Ok(());
        }
        if panel {
            if self.fail_close_panel {
                return Err("panel busy".to_string());
            }
            self.panel_open = false;
        } else {
            if self.fail_close_dim {
                return Err("dim busy".to_string());
            }
            self.dim_open = false;
        }
        Ok(())
    }

    fn run_hide(&mut self, state: &mut State) -> Result<(), OverlayError> {
        let plan = state.plan_hide(self.panel_open, self.dim_open);
        let panel_closed = self.close(plan.close_panel, true);
        let dim_closed = self.close(dim_close_due(plan, &panel_closed), false);
        state.finish_hide(settle_hide(plan, panel_closed, dim_closed))
    }

    fn run_toggle(&mut self, state: &mut State) -> Result<(), OverlayError> {
        if state.visible {
            self.run_hide(state)
        } else {
            self.run_show(state)
        }
    }
}

#[test]
fn visibility_follows_the_panel_window() {
    let mut state = State::new();
    let mut desktop = FakeDesktop::new();

    desktop.fail_open = true;
    assert!(desktop.run_show(&mut state).is_err());
    assert_eq!(state.visible, desktop.panel_open);
    assert!(!state.visible);

    desktop.fail_open = false;
    assert_eq!(desktop.run_show(&mut state), Ok(()));
    assert_eq!(state.visible, desktop.panel_open);
    assert!(state.visible);

    assert_eq!(desktop.run_show(&mut state), Ok(()));
    assert_eq!(state.visible, desktop.panel_open);

    desktop.dim_open = true;
    desktop.fail_close_panel = true;
    assert_eq!(desktop.run_hide(&mut state), Err(OverlayError::Os("panel busy".to_string())));
    assert_eq!(state.visible, desktop.panel_open);
    assert!(state.visible && desktop.dim_open);

    desktop.fail_close_panel = false;
    desktop.fail_close_dim = true;
    assert_eq!(desktop.run_hide(&mut state), Err(OverlayError::Os("dim busy".to_string())));
    assert_eq!(state.visible, desktop.panel_open);
    assert!(!state.visible && desktop.dim_open);

    assert_eq!(desktop.run_hide(&mut state), Ok(()));
    assert_eq!(state.visible, desktop.panel_open);
    assert!(desktop.dim_open);

    desktop.fail_close_dim = false;
    for _ in 0..5 {
        let before = state.visible;
        assert_eq!(desktop.run_toggle(&mut state), Ok(()));
        assert_eq!(state.visible, !before);
        assert_eq!(state.visible, desktop.panel_open);
    }
}

#[test]
fn dim_layer_is_closed_only_after_the_panel() {
    let both = ClosePlan { close_panel: true, close_dim: true };
    assert!(dim_close_due(both, &Ok(())));
    assert!(!dim_close_due(both, &Err("busy".to_string())));
    let dim_only = ClosePlan { close_panel: false, close_dim: true };
    assert!(dim_close_due(dim_only, &Ok(())));
    assert!(dim_close_due(dim_only, &Err("not tried".to_string())));
    let panel_only = ClosePlan { close_panel: true, close_dim: false };
    assert!(!dim_close_due(panel_only, &Ok(())));
}

#[test]
fn hide_outcome_is_read_off_the_closings() {
    let both = ClosePlan { close_panel: true, close_dim: true };
    assert_eq!(settle_hide(both, Ok(()), Ok(())), HideOutcome::Closed);
    assert_eq!(
        settle_hide(both, Err("p".to_string()), Ok(())),
        HideOutcome::PanelFailed("p".to_string())
    );
    assert_eq!(
        settle_hide(both, Err("p".to_string()), Err("d".to_string())),
        HideOutcome::PanelFailed("p".to_string())
    );
    assert_eq!(
        settle_hide(both, Ok(()), Err("d".to_string())),
        HideOutcome::DimFailed("d".to_string())
    );
    let nothing = ClosePlan { close_panel: false, close_dim: false };
    assert_eq!(settle_hide(nothing, Err("p".to_string()), Err("d".to_string())), HideOutcome::Closed);
    let dim_only = ClosePlan { close_panel: false, close_dim: true };
    assert_eq!(
        settle_hide(dim_only, Err("p".to_string()), Err("d".to_string())),
        HideOutcome::DimFailed("d".to_string())
    );
}

#[test]
fn display_is_needed_only_to_construct_the_panel() {
    let hidden = State::new();
    assert!(hidden.needs_display(false));
    assert!(!hidden.needs_display(true));
    let visible = visible_state();
    assert!(!visible.needs_display(false));
    assert!(!visible.needs_display(true));
}
