use bridge_sim::engine::SimulationState;
use bridge_sim::gui::{Gui, TerminalEvent};
use bridge_sim::input::{
    is_inside as point_in_rect, KeyCode, KeyEvent, MouseEvent, MouseEventKind, Rect,
};
use bridge_sim::list_menu::{ListMenu, ListMenuItem, MenuAction};
use bridge_sim::main_menu::MainMenu;
use bridge_sim::world_menu::WorldMenu;

fn key(code: KeyCode) -> KeyEvent {
    KeyEvent { code, ctrl: false }
}

#[test]
fn mouse_area_is_inside() {
    let rect = Rect::new(2, 10, 5, 5);
    let mouse_event = MouseEvent { kind: MouseEventKind::Moved, column: 4, row: 13 };
    assert!(point_in_rect(&mouse_event, rect));
}

#[test]
fn is_inside() {
    let rect = Rect::new(2, 10, 5, 5);
    let mouse_event = MouseEvent { kind: MouseEventKind::Moved, column: 4, row: 13 };
    assert!(point_in_rect(&mouse_event, rect));
}

#[test]
fn is_inside_includes_all_four_boundaries() {
    let rect = Rect::new(2, 10, 5, 5);
    // corners: (left, top), (right, top), (left, bottom), (right, bottom)
    for &(column, row) in &[(2, 10), (7, 10), (2, 15), (7, 15)] {
        let ev = MouseEvent { kind: MouseEventKind::Moved, column, row };
        assert!(point_in_rect(&ev, rect));
    }
    // just outside each boundary
    for &(column, row) in &[(1, 12), (8, 12), (4, 9), (4, 16)] {
        let ev = MouseEvent { kind: MouseEventKind::Moved, column, row };
        assert!(!point_in_rect(&ev, rect));
    }
}

#[test]
fn rect_edges_saturate_at_the_terminal_limit() {
    let rect = Rect::new(65530, 65000, 100, 1000);
    assert_eq!(rect.left(), 65530);
    assert_eq!(rect.right(), u16::MAX);
    assert_eq!(rect.top(), 65000);
    assert_eq!(rect.bottom(), u16::MAX);
    let corner = MouseEvent { kind: MouseEventKind::Moved, column: u16::MAX, row: u16::MAX };
    assert!(point_in_rect(&corner, rect));
}

#[test]
fn opening_the_main_menu_resets_its_selection() {
    let mut menu = MainMenu::new();
    menu.open();
    assert_eq!(menu.list_menu.selected, Some(0));
    // move the selection, close and reopen: the selection is back on top
    menu.list_menu.handle_key_event(&key(KeyCode::Down));
    assert_eq!(menu.list_menu.selected, Some(1));
    menu.close();
    menu.open();
    assert_eq!(menu.list_menu.selected, Some(0));
}

fn sample_menu() -> ListMenu {
    ListMenu::new(
        "Sample".to_owned(),
        vec![
            ListMenuItem {
                title: "First".to_owned(),
                hotkey: KeyCode::Char('a'),
                action: MenuAction::Resume,
            },
            ListMenuItem {
                title: "Second".to_owned(),
                hotkey: KeyCode::Char('b'),
                action: MenuAction::Exit,
            },
            ListMenuItem {
                title: "Third".to_owned(),
                hotkey: KeyCode::Char('c'),
                action: MenuAction::Resume,
            },
        ],
    )
}

#[test]
fn list_menu_selection_wraps_both_ways() {
    let mut menu = sample_menu();
    assert_eq!(menu.selected, None);

    // Down from no selection lands on the first item
    menu.handle_key_event(&key(KeyCode::Down));
    assert_eq!(menu.selected, Some(0));
    menu.handle_key_event(&key(KeyCode::Down));
    assert_eq!(menu.selected, Some(1));
    menu.handle_key_event(&key(KeyCode::Down));
    assert_eq!(menu.selected, Some(2));
    // wrap at the bottom
    menu.handle_key_event(&key(KeyCode::Down));
    assert_eq!(menu.selected, Some(0));
    // wrap at the top
    menu.handle_key_event(&key(KeyCode::Up));
    assert_eq!(menu.selected, Some(2));
    menu.handle_key_event(&key(KeyCode::Up));
    assert_eq!(menu.selected, Some(1));
}

#[test]
fn list_menu_enter_activates_selection_and_hotkey_overrides() {
    let mut menu = sample_menu();

    // Enter without a selection does nothing but still consumes the key
    let (handled, action) = menu.handle_key_event(&key(KeyCode::Enter));
    assert!(handled);
    assert_eq!(action, None);

    menu.handle_key_event(&key(KeyCode::Down));
    menu.handle_key_event(&key(KeyCode::Down));
    let (handled, action) = menu.handle_key_event(&key(KeyCode::Enter));
    assert!(handled);
    assert_eq!(action, Some(MenuAction::Exit));

    // Space activates like Enter
    let (handled, action) = menu.handle_key_event(&key(KeyCode::Char(' ')));
    assert!(handled);
    assert_eq!(action, Some(MenuAction::Exit));

    // a hotkey activates its item regardless of the selection
    let (handled, action) = menu.handle_key_event(&key(KeyCode::Char('a')));
    assert!(handled);
    assert_eq!(action, Some(MenuAction::Resume));
    assert_eq!(menu.selected, Some(1));

    // an unbound key is left unconsumed
    let (handled, action) = menu.handle_key_event(&key(KeyCode::Char('z')));
    assert!(!handled);
    assert_eq!(action, None);
}

#[test]
fn list_menu_mouse_selects_and_activates() {
    let mut menu = sample_menu();
    menu.set_area(Rect::new(0, 10, 20, 5));

    // items start one row below the top border, at row 11
    let moved = MouseEvent { kind: MouseEventKind::Moved, column: 3, row: 12 };
    let (handled, action) = menu.handle_mouse_event(&moved);
    assert!(handled);
    assert_eq!(action, None);
    assert_eq!(menu.selected, Some(1));

    // movement below the last item clamps the selection to it
    let far = MouseEvent { kind: MouseEventKind::Moved, column: 3, row: 60 };
    menu.handle_mouse_event(&far);
    assert_eq!(menu.selected, Some(2));

    // a click activates the item under the pointer without moving the
    // selection
    let click = MouseEvent { kind: MouseEventKind::LeftDown, column: 3, row: 12 };
    let (handled, action) = menu.handle_mouse_event(&click);
    assert!(handled);
    assert_eq!(action, Some(MenuAction::Exit));
    assert_eq!(menu.selected, Some(2));
}

#[test]
fn main_menu_click_outside_closes_and_swallows() {
    let mut menu = MainMenu::new();
    menu.open();
    menu.set_area(Rect::new(10, 10, 20, 5));
    assert!(menu.is_open());

    let outside = MouseEvent { kind: MouseEventKind::LeftDown, column: 0, row: 0 };
    let (handled, exit) = menu.submit_mouse_event(&outside);
    assert!(handled);
    assert!(!exit);
    assert!(!menu.is_open());
}

#[test]
fn main_menu_inner_area_rule() {
    let menu = MainMenu::new();
    let outer = Rect::new(0, 0, 200, 60);
    let inner = menu.calculate_inner_area(outer);
    // 50 cells of margin on each side, 10 rows above and below, a tenth
    // of the remaining height
    assert_eq!(inner, Rect::new(50, 10, 100, 4));

    // a terminal too small for the margins yields an empty area
    let tiny = menu.calculate_inner_area(Rect::new(0, 0, 40, 12));
    assert_eq!(tiny.width, 0);
    assert_eq!(tiny.height, 0);
}

#[test]
fn world_menu_focus_wraps_left_and_right() {
    let mut menu = WorldMenu::new();
    assert_eq!(menu.focused_button_idx, Some(0));

    let (handled, action) = menu.submit_key_event(&key(KeyCode::Left));
    assert!(handled);
    assert_eq!(action, None);
    assert_eq!(menu.focused_button_idx, Some(1));

    let (handled, _) = menu.submit_key_event(&key(KeyCode::Right));
    assert!(handled);
    assert_eq!(menu.focused_button_idx, Some(0));

    // an unbound key bubbles up
    let (handled, action) = menu.submit_key_event(&key(KeyCode::Char('x')));
    assert!(!handled);
    assert_eq!(action, None);
}

#[test]
fn deepest_consumer_stops_dispatch() {
    let mut gui = Gui::new();

    // menu closed, focus on the start/pause button: Enter is consumed by
    // the deepest focused leaf and starts the simulation
    let (handled, exit) = gui.submit_key_event(&key(KeyCode::Enter));
    assert!(handled);
    assert!(!exit);
    assert!(matches!(
        gui.scene_view.engine.simulation_state(),
        SimulationState::Running
    ));

    // Esc misses every child handler, bubbles to the root and opens the
    // main menu
    let (handled, _) = gui.submit_key_event(&key(KeyCode::Esc));
    assert!(handled);
    assert!(gui.main_menu.is_open());

    // with the menu open, Esc is the "back to game" hotkey: the list
    // consumes it, so the root's own handler never runs (it would have
    // reopened the menu)
    let (handled, exit) = gui.submit_key_event(&key(KeyCode::Esc));
    assert!(handled);
    assert!(!exit);
    assert!(!gui.main_menu.is_open());
}

#[test]
fn unconsumed_keys_bubble_to_every_ancestor_once() {
    let mut gui = Gui::new();

    // nothing in the tree reads 'x': every handler gets its one attempt
    // and the event stays unhandled
    let (handled, exit) = gui.submit_key_event(&key(KeyCode::Char('x')));
    assert!(!handled);
    assert!(!exit);

    // Ctrl+C misses the children and the root's own handler requests an
    // exit
    let (handled, exit) = gui.submit_key_event(&KeyEvent { code: KeyCode::Char('c'), ctrl: true });
    assert!(handled);
    assert!(exit);
}

#[test]
fn main_menu_exit_item_requests_exit() {
    let mut gui = Gui::new();
    gui.submit_key_event(&key(KeyCode::Esc));
    assert!(gui.main_menu.is_open());

    // 'q' is the exit item's hotkey
    let (handled, exit) = gui.submit_key_event(&key(KeyCode::Char('q')));
    assert!(handled);
    assert!(exit);
}

#[test]
fn transport_controls_drive_the_engine() {
    let mut gui = Gui::new();

    // Enter on the focused start/pause button toggles run and pause
    gui.submit_key_event(&key(KeyCode::Enter));
    assert!(matches!(
        gui.scene_view.engine.simulation_state(),
        SimulationState::Running
    ));
    gui.submit_key_event(&key(KeyCode::Enter));
    assert!(matches!(
        gui.scene_view.engine.simulation_state(),
        SimulationState::Paused
    ));

    // Right moves focus to the reset button; Space activates it
    gui.submit_key_event(&key(KeyCode::Right));
    gui.submit_key_event(&key(KeyCode::Char(' ')));
    assert!(matches!(
        gui.scene_view.engine.simulation_state(),
        SimulationState::Cleared
    ));
}

#[test]
fn terminal_events_ask_for_redraws() {
    let mut gui = Gui::new();
    let (draw, exit) = gui.handle_terminal_event(TerminalEvent::Resize);
    assert!(draw);
    assert!(!exit);
    let (draw, exit) = gui.handle_terminal_event(TerminalEvent::Other);
    assert!(!draw);
    assert!(!exit);
    let (draw, exit) = gui.handle_terminal_event(TerminalEvent::Key(key(KeyCode::Enter)));
    assert!(draw);
    assert!(!exit);
}

#[test]
fn physics_tick_reports_redraw_only_while_running() {
    let mut gui = Gui::new();
    // cleared: no tick, no redraw
    assert!(!gui.physics_tick());

    gui.submit_key_event(&key(KeyCode::Enter));
    assert!(gui.physics_tick());
}
