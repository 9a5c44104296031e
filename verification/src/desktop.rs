//! What the application does on clicks, window events and at its start.
use crate::config::texts;
use vstd::prelude::*;

verus! {

/// The size of the tray menu, in pixels.
pub const MENU_WIDTH: i64 = 232;

pub const MENU_HEIGHT: i64 = 164;

/// How far the menu keeps from the cursor.
pub const CURSOR_GAP: i64 = 12;

/// How far the menu keeps from the edges of the work area.
pub const EDGE_GAP: i64 = 4;

/// The argument that shows the window at once.
pub const SHOW_ARGUMENT: &'static str = "--show";

/// A button of the mouse.
#[derive(Clone, Copy, Debug, PartialEq, Eq)]
pub enum TrayButton {
    Left,
    Right,
    Other,
}

/// What a click on the tray icon does.
#[derive(Clone, Copy, Debug, PartialEq, Eq)]
pub enum TrayAction {
    OpenSettings,
    OpenMenu,
    Nothing,
}

/// Decides on a click on the tray icon. Only the release of a button counts.
pub fn tray_click(button: TrayButton, released: bool) -> (action: TrayAction)
    ensures
        action == match (released, button) {
            (true, TrayButton::Left) => TrayAction::OpenSettings,
            (true, TrayButton::Right) => TrayAction::OpenMenu,
            _ => TrayAction::Nothing,
        },
{
    if !released {
        return TrayAction::Nothing;
    }
    match button {
        TrayButton::Left => TrayAction::OpenSettings,
        TrayButton::Right => TrayAction::OpenMenu,
        TrayButton::Other => TrayAction::Nothing,
    }
}

/// The windows of the application.
#[derive(Clone, Copy, Debug, PartialEq, Eq)]
pub enum AppWindow {
    /// The settings.
    Main,
    /// The menu of the tray icon.
    TrayMenu,
}

/// What may happen to a window.
#[derive(Clone, Copy, Debug, PartialEq, Eq)]
pub enum WindowSignal {
    CloseRequested,
    FocusGained,
    FocusLost,
    Moved,
    Resized,
    ScaleFactorChanged,
    Other,
}

/// What is done about it.
#[derive(Clone, Copy, Debug, PartialEq, Eq)]
pub enum WindowReaction {
    /// Keep the window from closing and hide it.
    HideInsteadOfClosing,
    Hide,
    /// Cut its rounded corners anew.
    RoundCorners,
    Nothing,
}

/// Whether a signal may have undone the rounded corners.
pub open spec fn reshapes(signal: WindowSignal) -> bool {
    signal is Moved || signal is Resized || signal is ScaleFactorChanged
}

/// Decides on what happens to a window. The settings are hidden when they are
/// closed, the tray menu when it loses the focus.
pub fn window_reaction(window: AppWindow, signal: WindowSignal) -> (reaction: WindowReaction)
    ensures
        reaction == if reshapes(signal) {
            WindowReaction::RoundCorners
        } else if window is Main && signal is CloseRequested {
            WindowReaction::HideInsteadOfClosing
        } else if window is TrayMenu && signal is FocusLost {
            WindowReaction::Hide
        } else {
            WindowReaction::Nothing
        },
{
    match (window, signal) {
        (_, WindowSignal::Moved) => WindowReaction::RoundCorners,
        (_, WindowSignal::Resized) => WindowReaction::RoundCorners,
        (_, WindowSignal::ScaleFactorChanged) => WindowReaction::RoundCorners,
        (AppWindow::Main, WindowSignal::CloseRequested) => WindowReaction::HideInsteadOfClosing,
        (AppWindow::TrayMenu, WindowSignal::FocusLost) => WindowReaction::Hide,
        _ => WindowReaction::Nothing,
    }
}

/// Whether the settings are shown at once, by the arguments of the program.
pub fn shown_at_start(arguments: &Vec<String>) -> (shown: bool)
    ensures
        shown == texts(arguments@).contains(SHOW_ARGUMENT@),
{
    let wanted: String = SHOW_ARGUMENT.to_owned();
    let mut i: usize = 0;
    while i < arguments.len()
        invariant
            wanted@ == SHOW_ARGUMENT@,
            i <= arguments.len(),
            forall|j: int| 0 <= j < i ==> #[trigger] texts(arguments@)[j] != SHOW_ARGUMENT@,
        decreases arguments.len() - i,
    {
        if arguments[i] == wanted {
            assert(texts(arguments@)[i as int] == SHOW_ARGUMENT@);
            return true;
        }
        i += 1;
    }
    false
}

/// The part of a screen that windows may cover, in pixels.
#[derive(Clone, Copy, Debug, PartialEq, Eq)]
pub struct WorkArea {
    pub x: i32,
    pub y: i32,
    pub width: u32,
    pub height: u32,
}

impl WorkArea {
    /// Whether the menu fits in, edges kept free.
    pub open spec fn fits_menu(self) -> bool {
        &&& self.width >= MENU_WIDTH + 2 * EDGE_GAP
        &&& self.height >= MENU_HEIGHT + 2 * EDGE_GAP
    }

    /// Whether the menu fits in, edges kept free.
    pub fn has_room(&self) -> (fits: bool)
        ensures
            fits == self.fits_menu(),
    {
        self.width as i64 >= MENU_WIDTH + 2 * EDGE_GAP && self.height as i64 >= MENU_HEIGHT + 2
            * EDGE_GAP
    }
}

/// The number in `low..=high` that is nearest to another.
pub open spec fn clamped(value: int, low: int, high: int) -> int {
    if value < low {
        low
    } else if value > high {
        high
    } else {
        value
    }
}

/// Where the menu goes from left to right: just left of the cursor, within the work
/// area.
pub open spec fn menu_x(cursor: int, area: Option<WorkArea>) -> int {
    let wanted = cursor - CURSOR_GAP;
    match area {
        Some(a) => clamped(wanted, a.x + EDGE_GAP, a.x + a.width - MENU_WIDTH - EDGE_GAP),
        None => wanted,
    }
}

/// Where the menu goes from top to bottom: above the cursor, or below it where it
/// does not fit above, within the work area.
pub open spec fn menu_y(cursor: int, area: Option<WorkArea>) -> int {
    let above = cursor - MENU_HEIGHT - CURSOR_GAP;
    match area {
        Some(a) => {
            let wanted = if above < a.y + EDGE_GAP {
                cursor + CURSOR_GAP
            } else {
                above
            };
            clamped(wanted, a.y + EDGE_GAP, a.y + a.height - MENU_HEIGHT - EDGE_GAP)
        },
        None => above,
    }
}

fn clamp(value: i64, low: i64, high: i64) -> (near: i64)
    requires
        low <= high,
    ensures
        near == clamped(value as int, low as int, high as int),
{
    if value < low {
        low
    } else if value > high {
        high
    } else {
        value
    }
}

/// Where to put the tray menu for a cursor, in whole pixels. `area` is the work area
/// of the screen that the cursor is on, where it is known.
pub fn menu_position(cursor_x: i32, cursor_y: i32, area: Option<WorkArea>) -> (position: (
    i64,
    i64,
))
    requires
        area matches Some(a) ==> a.fits_menu(),
    ensures
        position.0 == menu_x(cursor_x as int, area),
        position.1 == menu_y(cursor_y as int, area),
{
    let mut x: i64 = cursor_x as i64 - CURSOR_GAP;
    let mut y: i64 = cursor_y as i64 - MENU_HEIGHT - CURSOR_GAP;
    if let Some(a) = area {
        let left: i64 = a.x as i64;
        let top: i64 = a.y as i64;
        x = clamp(x, left + EDGE_GAP, left + a.width as i64 - MENU_WIDTH - EDGE_GAP);
        if y < top + EDGE_GAP {
            y = cursor_y as i64 + CURSOR_GAP;
        }
        y = clamp(y, top + EDGE_GAP, top + a.height as i64 - MENU_HEIGHT - EDGE_GAP);
    }
    (x, y)
}

/// The menu never leaves the work area, wherever the cursor is, and keeps its edges
/// free.
pub proof fn law_menu_stays_in_work_area(cursor_x: int, cursor_y: int, area: WorkArea)
    requires
        area.fits_menu(),
    ensures
        area.x + EDGE_GAP <= menu_x(cursor_x, Some(area)),
        menu_x(cursor_x, Some(area)) + MENU_WIDTH <= area.x + area.width - EDGE_GAP,
        area.y + EDGE_GAP <= menu_y(cursor_y, Some(area)),
        menu_y(cursor_y, Some(area)) + MENU_HEIGHT <= area.y + area.height - EDGE_GAP,
{
}

/// The left button opens the settings and the right one the menu, each when it is
/// released; nothing else does anything.
pub proof fn law_clicks_on_the_tray_icon(button: TrayButton, released: bool, action: TrayAction)
    requires
        call_ensures(tray_click, (button, released), action),
    ensures
        action is OpenSettings <==> button is Left && released,
        action is OpenMenu <==> button is Right && released,
{
}

/// Closing the settings hides them, and nothing else does; losing the focus hides the
/// menu, and nothing else does; the corners are cut anew exactly where a window was moved
/// or resized, or its scale changed.
pub proof fn law_windows_hide_and_keep_their_corners(
    window: AppWindow,
    signal: WindowSignal,
    reaction: WindowReaction,
)
    requires
        call_ensures(window_reaction, (window, signal), reaction),
    ensures
        reaction is HideInsteadOfClosing <==> window is Main && signal is CloseRequested,
        reaction is Hide <==> window is TrayMenu && signal is FocusLost,
        reaction is RoundCorners <==> signal is Moved || signal is Resized
            || signal is ScaleFactorChanged,
{
}

/// The settings are shown at once exactly where one of the arguments is `--show`.
pub proof fn law_settings_are_shown_on_request(arguments: &Vec<String>, shown: bool)
    requires
        call_ensures(shown_at_start, (arguments,), shown),
    ensures
        shown <==> exists|i: int|
            0 <= i < arguments@.len() && (#[trigger] arguments@[i])@ == "--show"@,
{
    if shown {
        let i = choose|i: int|
            0 <= i < texts(arguments@).len() && texts(arguments@)[i] == "--show"@;
        assert(arguments@[i]@ == "--show"@);
    }
    if exists|i: int| 0 <= i < arguments@.len() && (#[trigger] arguments@[i])@ == "--show"@ {
        let i = choose|i: int|
            0 <= i < arguments@.len() && (#[trigger] arguments@[i])@ == "--show"@;
        assert(texts(arguments@)[i] == "--show"@);
    }
}

/// There is room for the menu exactly where its 232 by 164 pixels, and four on each side,
/// fit into the work area.
pub proof fn law_room_for_the_menu(area: &WorkArea, fits: bool)
    requires
        call_ensures(WorkArea::has_room, (area,), fits),
    ensures
        fits <==> area.width >= 240 && area.height >= 172,
{
}

/// The menu goes twelve pixels left of the cursor and twelve above it. In a work area it
/// is moved no further than it takes to keep four pixels from the edges, and where there
/// is no room above the cursor it goes twelve pixels below it instead.
pub proof fn law_menu_goes_to_the_cursor(
    cursor_x: i32,
    cursor_y: i32,
    area: Option<WorkArea>,
    position: (i64, i64),
)
    requires
        area matches Some(a) ==> a.width >= 240 && a.height >= 172,
        call_ensures(menu_position, (cursor_x, cursor_y, area), position),
    ensures
        area is None ==> position.0 == cursor_x - 12 && position.1 == cursor_y - 176,
        area matches Some(a) ==> {
            let right = a.x + a.width - 236;
            let bottom = a.y + a.height - 168;
            let wanted = if cursor_y - 176 >= a.y + 4 {
                cursor_y - 176
            } else {
                cursor_y + 12
            };
            &&& a.x + 4 <= position.0 <= right
            &&& a.y + 4 <= position.1 <= bottom
            &&& a.x + 4 <= cursor_x - 12 <= right ==> position.0 == cursor_x - 12
            &&& cursor_x - 12 < a.x + 4 ==> position.0 == a.x + 4
            &&& cursor_x - 12 > right ==> position.0 == right
            &&& a.y + 4 <= wanted <= bottom ==> position.1 == wanted
            &&& wanted < a.y + 4 ==> position.1 == a.y + 4
            &&& wanted > bottom ==> position.1 == bottom
        },
{
}

/// The menu can be put anywhere that there is room for it.
pub proof fn law_menu_can_be_placed(cursor_x: i32, cursor_y: i32, area: Option<WorkArea>)
    requires
        area matches Some(a) ==> a.width >= 240 && a.height >= 172,
    ensures
        call_requires(menu_position, (cursor_x, cursor_y, area)),
{
}

} // verus!
