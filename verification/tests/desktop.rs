use renarrator::desktop::{
    menu_position, shown_at_start, tray_click, window_reaction, AppWindow, TrayAction, TrayButton,
    WindowReaction, WindowSignal, WorkArea, MENU_HEIGHT, MENU_WIDTH,
};

const FULL_HD: WorkArea = WorkArea { x: 0, y: 0, width: 1920, height: 1040 };

#[test]
fn clicks_on_the_tray_icon() {
    assert_eq!(tray_click(TrayButton::Left, true), TrayAction::OpenSettings);
    assert_eq!(tray_click(TrayButton::Right, true), TrayAction::OpenMenu);
    assert_eq!(tray_click(TrayButton::Other, true), TrayAction::Nothing);
    assert_eq!(tray_click(TrayButton::Left, false), TrayAction::Nothing);
}

#[test]
fn windows_hide_and_keep_their_corners() {
    let (main, menu) = (AppWindow::Main, AppWindow::TrayMenu);
    assert_eq!(
        window_reaction(main, WindowSignal::CloseRequested),
        WindowReaction::HideInsteadOfClosing
    );
    assert_eq!(window_reaction(menu, WindowSignal::FocusLost), WindowReaction::Hide);
    assert_eq!(window_reaction(main, WindowSignal::FocusLost), WindowReaction::Nothing);
    assert_eq!(window_reaction(menu, WindowSignal::CloseRequested), WindowReaction::Nothing);
    for window in [main, menu] {
        for signal in [
            WindowSignal::Moved,
            WindowSignal::Resized,
            WindowSignal::ScaleFactorChanged,
        ] {
            assert_eq!(window_reaction(window, signal), WindowReaction::RoundCorners);
        }
        assert_eq!(window_reaction(window, WindowSignal::FocusGained), WindowReaction::Nothing);
        assert_eq!(window_reaction(window, WindowSignal::Other), WindowReaction::Nothing);
    }
}

#[test]
fn the_show_argument_is_recognised() {
    let args = |list: &[&str]| list.iter().map(|a| a.to_string()).collect::<Vec<String>>();
    assert!(shown_at_start(&args(&["renarrator.exe", "--show"])));
    assert!(!shown_at_start(&args(&["renarrator.exe", "--SHOW"])));
    assert!(!shown_at_start(&args(&[])));
}

#[test]
fn menu_opens_above_the_cursor() {
    assert_eq!(menu_position(900, 900, Some(FULL_HD)), (888, 724));
    assert_eq!(menu_position(900, 900, None), (888, 724));
}

#[test]
fn menu_opens_below_at_the_upper_edge() {
    assert_eq!(menu_position(900, 50, Some(FULL_HD)), (888, 62));
    assert_eq!(menu_position(900, 180, Some(FULL_HD)), (888, 4));
    assert_eq!(menu_position(900, 179, Some(FULL_HD)), (888, 191));
}

#[test]
fn menu_stays_in_the_work_area() {
    let left = WorkArea { x: -1280, y: 100, width: 1280, height: 984 };
    assert!(left.has_room());
    for x in [-5000, -1280, -1, 700] {
        for y in [-400, 100, 300, 1083, 4000] {
            let (mx, my) = menu_position(x, y, Some(left));
            assert!(-1276 <= mx && mx + MENU_WIDTH <= -4);
            assert!(104 <= my && my + MENU_HEIGHT <= 1080);
        }
    }
    assert_eq!(menu_position(1915, 1035, Some(FULL_HD)), (1684, 859));
}

#[test]
fn room_for_the_menu() {
    assert!(WorkArea { x: 0, y: 0, width: 240, height: 172 }.has_room());
    assert!(!WorkArea { x: 0, y: 0, width: 239, height: 172 }.has_room());
    assert!(!WorkArea { x: 0, y: 0, width: 240, height: 171 }.has_room());
}
