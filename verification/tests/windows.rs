use overlay_supervisor::error::OverlayError;
use overlay_supervisor::windows::{
    center, dim_needs_display, dim_window, main_window_chrome, panel_window, plan_hide_dim,
    plan_show_dim, require_display, ClosePlan, DimPlan, DisplaySize, FullScreenRole,
    OverlayWindow, DIM_LEVEL, MAIN_WINDOW_LABEL, PANEL_HEIGHT, PANEL_LEVEL, PANEL_WIDTH,
};

#[test]
fn panel_is_centered_on_a_full_hd_display() {
    let panel = panel_window(DisplaySize { width: 1920, height: 1080 });
    assert_eq!((panel.x, panel.y), (600, 480));
    assert_eq!((panel.width, panel.height), (720, 120));
    assert_eq!(panel.window, OverlayWindow::Panel);
}

#[test]
fn panel_on_a_display_of_odd_size() {
    let panel = panel_window(DisplaySize { width: 1367, height: 769 });
    assert_eq!((panel.x, panel.y), (323, 324));
}

#[test]
fn panel_on_a_display_smaller_than_the_panel() {
    let panel = panel_window(DisplaySize { width: 100, height: 50 });
    assert_eq!((panel.x, panel.y), (-310, -35));
    let panel = panel_window(DisplaySize { width: 0, height: 0 });
    assert_eq!((panel.x, panel.y), (-360, -60));
}

#[test]
fn panel_on_the_largest_display() {
    let panel = panel_window(DisplaySize { width: u32::MAX, height: u32::MAX });
    assert_eq!((panel.x, panel.y), (2147483647 - 360, 2147483647 - 60));
}

#[test]
fn center_rounds_each_half_down() {
    assert_eq!(center(10, 4), 3);
    assert_eq!(center(11, 4), 3);
    assert_eq!(center(11, 5), 3);
    assert_eq!(center(0, u32::MAX), -2147483647);
}

#[test]
fn panel_flags_and_chrome() {
    let panel = panel_window(DisplaySize { width: 1440, height: 900 });
    assert!(!panel.resizable && !panel.decorations);
    assert!(panel.always_on_top && panel.skip_taskbar && panel.transparent && panel.visible);
    assert_eq!(panel.chrome.level, Some(PANEL_LEVEL));
    assert!(panel.chrome.all_spaces && panel.chrome.transient && panel.chrome.clear_backing);
    assert!(panel.chrome.shadow);
    assert!(!panel.chrome.click_through);
    assert_eq!(panel.chrome.full_screen, FullScreenRole::Auxiliary);
}

#[test]
fn dim_layer_covers_the_display_below_the_panel() {
    let display = DisplaySize { width: 1440, height: 900 };
    let dim = dim_window(display);
    assert_eq!(dim.window, OverlayWindow::Dim);
    assert_eq!((dim.x, dim.y, dim.width, dim.height), (0, 0, 1440, 900));
    assert!(!dim.resizable && !dim.decorations);
    assert!(dim.always_on_top && dim.skip_taskbar && dim.transparent && dim.visible);
    assert_eq!(dim.chrome.level, Some(DIM_LEVEL));
    assert!(dim.chrome.click_through);
    assert!(dim.chrome.all_spaces);
    assert!(!dim.chrome.shadow);
    assert!(dim.chrome.level < panel_window(display).chrome.level);
}

#[test]
fn main_window_joins_all_spaces() {
    let chrome = main_window_chrome();
    assert_eq!(chrome.level, None);
    assert!(chrome.all_spaces);
    assert_eq!(chrome.full_screen, FullScreenRole::Primary);
    assert!(!chrome.transient && !chrome.clear_backing && !chrome.shadow && !chrome.click_through);
}

#[test]
fn window_constants() {
    assert_eq!((PANEL_WIDTH, PANEL_HEIGHT), (720, 120));
    assert_eq!((PANEL_LEVEL, DIM_LEVEL), (101, 100));
    assert_eq!(MAIN_WINDOW_LABEL, "main");
    assert_eq!(OverlayWindow::Panel.label(), "overlay");
    assert_eq!(OverlayWindow::Dim.label(), "overlay_dim");
    assert_eq!(OverlayWindow::Panel.route(), "overlay");
    assert_eq!(OverlayWindow::Dim.route(), "overlay/background");
    assert_eq!(OverlayWindow::Panel.title(), "Overlay");
    assert_eq!(OverlayWindow::Dim.title(), "Dim");
}

#[test]
fn display_is_required() {
    let display = DisplaySize { width: 800, height: 600 };
    assert_eq!(require_display(Ok(Some(display))), Ok(display));
    assert_eq!(require_display(Ok(None)), Err(OverlayError::NoDisplay));
    assert_eq!(
        require_display(Err("no screen".to_string())),
        Err(OverlayError::Os("no screen".to_string()))
    );
}

#[test]
fn dim_layer_is_created_once() {
    let display = DisplaySize { width: 800, height: 600 };
    assert_eq!(plan_show_dim(false, Ok(Some(display))), Ok(DimPlan::Create(dim_window(display))));
    assert_eq!(plan_show_dim(true, Ok(Some(display))), Ok(DimPlan::Raise));
}

#[test]
fn dim_layer_that_exists_needs_no_display() {
    assert_eq!(plan_show_dim(true, Ok(None)), Ok(DimPlan::Raise));
    assert_eq!(plan_show_dim(true, Err("no screen".to_string())), Ok(DimPlan::Raise));
}

#[test]
fn dim_layer_needs_a_display_to_be_created() {
    assert_eq!(plan_show_dim(false, Ok(None)), Err(OverlayError::NoDisplay));
    assert_eq!(
        plan_show_dim(false, Err("no screen".to_string())),
        Err(OverlayError::Os("no screen".to_string()))
    );
}

#[test]
fn hiding_the_dim_layer_tolerates_absence() {
    assert_eq!(plan_hide_dim(true), ClosePlan { close_panel: false, close_dim: true });
    assert_eq!(plan_hide_dim(false), ClosePlan { close_panel: false, close_dim: false });
}

#[test]
fn display_is_needed_only_to_construct_the_dim_layer() {
    assert!(dim_needs_display(false));
    assert!(!dim_needs_display(true));
}
