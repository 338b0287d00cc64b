//! The two auxiliary windows: what they look like and where they go.
//!
//! The window system itself is out of reach here. This module describes the
//! windows completely, so that whoever talks to the window system has no
//! decision left to take.

use crate::error::OverlayError;
use vstd::prelude::*;

verus! {

/// The label of the application's main window, which the overlay never owns
/// and only hands the focus back to.
pub const MAIN_WINDOW_LABEL: &'static str = "main";

/// Logical width of the panel.
pub const PANEL_WIDTH: u32 = 720;

/// Logical height of the panel.
pub const PANEL_HEIGHT: u32 = 120;

/// Native window level of the panel: above normal windows and above the dim
/// layer.
pub const PANEL_LEVEL: i32 = 101;

/// Native window level of the dim layer: above normal windows, below the
/// panel.
pub const DIM_LEVEL: i32 = 100;

/// The windows that the overlay creates and closes.
#[derive(Clone, Copy, PartialEq, Eq, Structural, Debug)]
pub enum OverlayWindow {
    /// The foreground panel.
    Panel,
    /// The background layer that darkens the display behind the panel.
    Dim,
}

impl OverlayWindow {
    /// The label under which the window system knows the window.
    pub open spec fn label_text(&self) -> Seq<char> {
        match self {
            OverlayWindow::Panel => "overlay"@,
            OverlayWindow::Dim => "overlay_dim"@,
        }
    }

    /// The route of the page that the window shows.
    pub open spec fn route_text(&self) -> Seq<char> {
        match self {
            OverlayWindow::Panel => "overlay"@,
            OverlayWindow::Dim => "overlay/background"@,
        }
    }

    /// The title that the window carries.
    pub open spec fn title_text(&self) -> Seq<char> {
        match self {
            OverlayWindow::Panel => "Overlay"@,
            OverlayWindow::Dim => "Dim"@,
        }
    }

    /// The window's label.
    pub fn label(&self) -> (text: &'static str)
        ensures
            text@ == self.label_text(),
    {
        match self {
            OverlayWindow::Panel => "overlay",
            OverlayWindow::Dim => "overlay_dim",
        }
    }

    /// The route of the window's page.
    pub fn route(&self) -> (text: &'static str)
        ensures
            text@ == self.route_text(),
    {
        match self {
            OverlayWindow::Panel => "overlay",
            OverlayWindow::Dim => "overlay/background",
        }
    }

    /// The window's title.
    pub fn title(&self) -> (text: &'static str)
        ensures
            text@ == self.title_text(),
    {
        match self {
            OverlayWindow::Panel => "Overlay",
            OverlayWindow::Dim => "Dim",
        }
    }
}

/// The size of the primary display in logical pixels.
#[derive(Clone, Copy, PartialEq, Eq, Structural, Debug)]
pub struct DisplaySize {
    pub width: u32,
    pub height: u32,
}

/// How a window takes part in full-screen spaces.
#[derive(Clone, Copy, PartialEq, Eq, Structural, Debug)]
pub enum FullScreenRole {
    /// The window may itself become a full-screen space.
    Primary,
    /// The window may appear on top of another window's full-screen space.
    Auxiliary,
}

/// Native window chrome, for platforms that have it.
#[derive(Clone, Copy, PartialEq, Eq, Structural, Debug)]
pub struct Chrome {
    /// The native window level, where the window is raised to one.
    pub level: Option<i32>,
    /// Whether the window appears on every virtual desktop.
    pub all_spaces: bool,
    /// The part the window plays in full-screen spaces.
    pub full_screen: FullScreenRole,
    /// Whether the window stays out of window cycling and task switchers.
    pub transient: bool,
    /// Whether the window's backing is made non-opaque.
    pub clear_backing: bool,
    /// Whether the window casts a shadow.
    pub shadow: bool,
    /// Whether pointer input passes through the window.
    pub click_through: bool,
}

/// A complete description of a window to construct.
#[derive(Clone, Copy, PartialEq, Eq, Structural, Debug)]
pub struct WindowLayout {
    pub window: OverlayWindow,
    /// Logical position of the top left corner.
    pub x: i32,
    pub y: i32,
    /// Logical inner size.
    pub width: u32,
    pub height: u32,
    pub resizable: bool,
    pub decorations: bool,
    pub always_on_top: bool,
    pub skip_taskbar: bool,
    pub transparent: bool,
    pub visible: bool,
    pub chrome: Chrome,
}

/// Where a stretch of `size` begins so that it sits in the middle of
/// `extent`: half the extent less half the size, each half rounded down.
pub open spec fn centered_origin(extent: u32, size: u32) -> int {
    extent as int / 2 - size as int / 2
}

/// Computes `centered_origin`.
pub fn center(extent: u32, size: u32) -> (origin: i32)
    ensures
        origin == centered_origin(extent, size),
{
    let half_extent: u32 = extent / 2;
    let half_size: u32 = size / 2;
    half_extent as i32 - half_size as i32
}

/// The chrome of the panel.
pub open spec fn panel_chrome() -> Chrome {
    Chrome {
        level: Some(PANEL_LEVEL),
        all_spaces: true,
        full_screen: FullScreenRole::Auxiliary,
        transient: true,
        clear_backing: true,
        shadow: true,
        click_through: false,
    }
}

/// The chrome of the dim layer.
pub open spec fn dim_chrome() -> Chrome {
    Chrome {
        level: Some(DIM_LEVEL),
        all_spaces: true,
        full_screen: FullScreenRole::Auxiliary,
        transient: true,
        clear_backing: true,
        shadow: false,
        click_through: true,
    }
}

/// The chrome that the main window gets at startup.
pub open spec fn main_chrome() -> Chrome {
    Chrome {
        level: None,
        all_spaces: true,
        full_screen: FullScreenRole::Primary,
        transient: false,
        clear_backing: false,
        shadow: false,
        click_through: false,
    }
}

/// The panel on a display of the given size: fixed size, centered.
pub open spec fn panel_layout(display: DisplaySize) -> WindowLayout {
    WindowLayout {
        window: OverlayWindow::Panel,
        x: centered_origin(display.width, PANEL_WIDTH) as i32,
        y: centered_origin(display.height, PANEL_HEIGHT) as i32,
        width: PANEL_WIDTH,
        height: PANEL_HEIGHT,
        resizable: false,
        decorations: false,
        always_on_top: true,
        skip_taskbar: true,
        transparent: true,
        visible: true,
        chrome: panel_chrome(),
    }
}

/// The dim layer on a display of the given size: it covers the display.
pub open spec fn dim_layout(display: DisplaySize) -> WindowLayout {
    WindowLayout {
        window: OverlayWindow::Dim,
        x: 0,
        y: 0,
        width: display.width,
        height: display.height,
        resizable: false,
        decorations: false,
        always_on_top: true,
        skip_taskbar: true,
        transparent: true,
        visible: true,
        chrome: dim_chrome(),
    }
}

/// Chrome for the application's main window.
pub fn main_window_chrome() -> (chrome: Chrome)
    ensures
        chrome == main_chrome(),
{
    Chrome {
        level: None,
        all_spaces: true,
        full_screen: FullScreenRole::Primary,
        transient: false,
        clear_backing: false,
        shadow: false,
        click_through: false,
    }
}

/// Describes the panel for a display.
pub fn panel_window(display: DisplaySize) -> (layout: WindowLayout)
    ensures
        layout == panel_layout(display),
{
    WindowLayout {
        window: OverlayWindow::Panel,
        x: center(display.width, PANEL_WIDTH),
        y: center(display.height, PANEL_HEIGHT),
        width: PANEL_WIDTH,
        height: PANEL_HEIGHT,
        resizable: false,
        decorations: false,
        always_on_top: true,
        skip_taskbar: true,
        transparent: true,
        visible: true,
        chrome: Chrome {
            level: Some(PANEL_LEVEL),
            all_spaces: true,
            full_screen: FullScreenRole::Auxiliary,
            transient: true,
            clear_backing: true,
            shadow: true,
            click_through: false,
        },
    }
}

/// Describes the dim layer for a display.
pub fn dim_window(display: DisplaySize) -> (layout: WindowLayout)
    ensures
        layout == dim_layout(display),
{
    WindowLayout {
        window: OverlayWindow::Dim,
        x: 0,
        y: 0,
        width: display.width,
        height: display.height,
        resizable: false,
        decorations: false,
        always_on_top: true,
        skip_taskbar: true,
        transparent: true,
        visible: true,
        chrome: Chrome {
            level: Some(DIM_LEVEL),
            all_spaces: true,
            full_screen: FullScreenRole::Auxiliary,
            transient: true,
            clear_backing: true,
            shadow: false,
            click_through: true,
        },
    }
}

/// The panel sits in the middle of the display: the margins to its left and
/// right differ by at most one pixel, and so do those above and below. It
/// lies above the dim layer, and only the dim layer lets the pointer
/// through.
pub proof fn lemma_panel_is_centered_above_dim(display: DisplaySize)
    ensures
        ({
            let panel = panel_layout(display);
            let left = panel.x as int;
            let right = display.width - (panel.x + panel.width);
            let top = panel.y as int;
            let bottom = display.height - (panel.y + panel.height);
            &&& 0 <= right - left <= 1
            &&& 0 <= bottom - top <= 1
        }),
        panel_layout(display).chrome.level->0 > dim_layout(display).chrome.level->0,
        dim_layout(display).chrome.click_through,
        !panel_layout(display).chrome.click_through,
{
}

/// What the window system answers when asked for the primary display: its
/// size, or nothing where it knows of none, or its report of why the
/// question failed.
pub type DisplayProbe = Result<Option<DisplaySize>, String>;

/// The display that a probe found, or the failure that it amounts to.
pub open spec fn display_of(probe: DisplayProbe) -> Result<DisplaySize, OverlayError> {
    match probe {
        Ok(Some(display)) => Ok(display),
        Ok(None) => Err(OverlayError::NoDisplay),
        Err(report) => Err(OverlayError::Os(report)),
    }
}

/// Turns the answer of the window system into a display size or a failure.
pub fn require_display(probe: DisplayProbe) -> (display: Result<DisplaySize, OverlayError>)
    ensures
        display == display_of(probe),
{
    match probe {
        Ok(Some(display)) => Ok(display),
        Ok(None) => Err(OverlayError::NoDisplay),
        Err(report) => Err(OverlayError::Os(report)),
    }
}

/// What to do to show the dim layer.
#[derive(Clone, Copy, PartialEq, Eq, Structural, Debug)]
pub enum DimPlan {
    /// There is no dim window yet: construct this one.
    Create(WindowLayout),
    /// The dim window exists: show it and give it the focus.
    Raise,
}

/// The plan for showing the dim layer, given whether the dim window exists.
/// The display matters only when a window has to be made.
pub open spec fn dim_plan_for(dim_open: bool, probe: DisplayProbe) -> Result<DimPlan, OverlayError> {
    if dim_open {
        Ok(DimPlan::Raise)
    } else {
        match display_of(probe) {
            Ok(display) => Ok(DimPlan::Create(dim_layout(display))),
            Err(failure) => Err(failure),
        }
    }
}

/// Plans showing the dim layer: an existing window is raised, never made a
/// second time.
pub fn plan_show_dim(dim_open: bool, probe: DisplayProbe) -> (plan: Result<DimPlan, OverlayError>)
    ensures
        plan == dim_plan_for(dim_open, probe),
{
    if dim_open {
        Ok(DimPlan::Raise)
    } else {
        match require_display(probe) {
            Ok(display) => Ok(DimPlan::Create(dim_window(display))),
            Err(failure) => Err(failure),
        }
    }
}

/// Says whether the display has to be asked for before `plan_show_dim`:
/// only when there is no dim window yet. With a dim window there, any
/// probe gives the same plan.
pub fn dim_needs_display(dim_open: bool) -> (needed: bool)
    ensures
        needed == !dim_open,
        !needed ==> forall|probe: DisplayProbe| #[trigger]
            dim_plan_for(dim_open, probe) == Ok::<DimPlan, OverlayError>(DimPlan::Raise),
{
    !dim_open
}

/// The dim layer is never made twice: a plan constructs a dim window only
/// when none exists, and with a dim window there the plan is to raise it,
/// whatever the display.
pub proof fn lemma_dim_is_created_once(dim_open: bool, probe: DisplayProbe)
    ensures
        dim_plan_for(dim_open, probe) matches Ok(DimPlan::Create(_)) ==> !dim_open,
        dim_open ==> dim_plan_for(dim_open, probe) == Ok::<DimPlan, OverlayError>(DimPlan::Raise),
{
}

/// Which of the overlay's windows to close, the panel before the dim layer.
/// A window that does not exist is not asked for, so its absence is no
/// failure. Both false means that there is nothing to do.
#[derive(Clone, Copy, PartialEq, Eq, Structural, Debug)]
pub struct ClosePlan {
    pub close_panel: bool,
    pub close_dim: bool,
}

/// The plan for hiding the dim layer: the dim window is closed if it
/// exists, and the panel is left alone whether it exists or not.
pub open spec fn dim_close_plan(dim_open: bool) -> ClosePlan {
    ClosePlan { close_panel: false, close_dim: dim_open }
}

/// Plans hiding the dim layer.
pub fn plan_hide_dim(dim_open: bool) -> (plan: ClosePlan)
    ensures
        plan == dim_close_plan(dim_open),
{
    ClosePlan { close_panel: false, close_dim: dim_open }
}

} // verus!
