use graf::input::{
    is_double_click, route_event, AppEvent, EventRoute, handle_graph_keys, handle_graph_mouse, Cell, GraphMouseState, KeyCommand, KeyInput, MouseCommand,
    MouseInput,
};

#[test]
fn keys() {
    assert_eq!(handle_graph_keys(KeyInput::Esc), KeyCommand::Quit);
    assert_eq!(handle_graph_keys(KeyInput::Char('q')), KeyCommand::Quit);
    assert_eq!(handle_graph_keys(KeyInput::Up), KeyCommand::PanUp);
    assert_eq!(handle_graph_keys(KeyInput::Down), KeyCommand::PanDown);
    assert_eq!(handle_graph_keys(KeyInput::Left), KeyCommand::PanLeft);
    assert_eq!(handle_graph_keys(KeyInput::Right), KeyCommand::PanRight);
    assert_eq!(handle_graph_keys(KeyInput::Char('+')), KeyCommand::ZoomIn);
    assert_eq!(handle_graph_keys(KeyInput::Char('=')), KeyCommand::ZoomIn);
    assert_eq!(handle_graph_keys(KeyInput::Char('-')), KeyCommand::ZoomOut);
    assert_eq!(handle_graph_keys(KeyInput::Enter), KeyCommand::OpenSelected);
    assert_eq!(handle_graph_keys(KeyInput::Char('a')), KeyCommand::AutoFit);
    assert_eq!(handle_graph_keys(KeyInput::Char('?')), KeyCommand::Help);
    assert_eq!(handle_graph_keys(KeyInput::Char('Q')), KeyCommand::Ignore);
    assert_eq!(handle_graph_keys(KeyInput::Other), KeyCommand::Ignore);
}

#[test]
fn dragging_a_node() {
    let mut s = GraphMouseState::default();
    assert_eq!(handle_graph_mouse(&mut s, MouseInput::LeftDown(3, 4), Some(7), false), MouseCommand::GrabNode { node: 7, open: false });
    assert_eq!(s.last_clicked_node, Some(7));
    assert!(!s.is_panning);
    assert_eq!(handle_graph_mouse(&mut s, MouseInput::LeftDrag(5, 6), None, false), MouseCommand::MoveNode { to: Cell { col: 5, row: 6 } });
    assert_eq!(s.drag_origin, Some(Cell { col: 5, row: 6 }));
    assert_eq!(handle_graph_mouse(&mut s, MouseInput::LeftUp, None, false), MouseCommand::Release);
    assert_eq!(s.drag_origin, None);
    assert_eq!(handle_graph_mouse(&mut s, MouseInput::LeftDrag(9, 9), None, false), MouseCommand::Nothing);
    assert_eq!(s.drag_origin, None);
}

#[test]
fn panning_the_view() {
    let mut s = GraphMouseState::default();
    assert_eq!(handle_graph_mouse(&mut s, MouseInput::LeftDown(10, 10), None, true), MouseCommand::GrabBackground { deselect: true });
    assert!(s.is_panning);
    assert_eq!(s.last_clicked_node, None);
    assert_eq!(
        handle_graph_mouse(&mut s, MouseInput::LeftDrag(12, 9), None, false),
        MouseCommand::Pan { from: Cell { col: 10, row: 10 }, to: Cell { col: 12, row: 9 } }
    );
    assert_eq!(
        handle_graph_mouse(&mut s, MouseInput::LeftDrag(13, 9), None, false),
        MouseCommand::Pan { from: Cell { col: 12, row: 9 }, to: Cell { col: 13, row: 9 } }
    );
    assert_eq!(handle_graph_mouse(&mut s, MouseInput::LeftUp, None, false), MouseCommand::Release);
    assert!(!s.is_panning);
}

#[test]
fn double_click_opens_and_scroll_zooms() {
    let mut s = GraphMouseState::default();
    assert_eq!(handle_graph_mouse(&mut s, MouseInput::LeftDown(1, 1), Some(2), true), MouseCommand::GrabNode { node: 2, open: true });
    assert_eq!(handle_graph_mouse(&mut s, MouseInput::ScrollUp, None, false), MouseCommand::ZoomIn);
    assert_eq!(handle_graph_mouse(&mut s, MouseInput::ScrollDown, None, false), MouseCommand::ZoomOut);
    assert_eq!(handle_graph_mouse(&mut s, MouseInput::Other, None, false), MouseCommand::Nothing);
    assert_eq!(s.drag_origin, Some(Cell { col: 1, row: 1 }));
}

#[test]
fn help_screen_holds_events() {
    assert_eq!(route_event(true, AppEvent::Key(KeyInput::Esc, true)), EventRoute::CloseHelp);
    assert_eq!(route_event(true, AppEvent::Key(KeyInput::Char('?'), true)), EventRoute::CloseHelp);
    assert_eq!(route_event(true, AppEvent::Key(KeyInput::Esc, false)), EventRoute::Ignore);
    assert_eq!(route_event(true, AppEvent::Key(KeyInput::Char('q'), true)), EventRoute::Ignore);
    assert_eq!(route_event(true, AppEvent::Mouse), EventRoute::Ignore);
    assert_eq!(route_event(false, AppEvent::Key(KeyInput::Char('q'), true)), EventRoute::GraphKey);
    assert_eq!(route_event(false, AppEvent::Key(KeyInput::Esc, false)), EventRoute::GraphKey);
    assert_eq!(route_event(false, AppEvent::Mouse), EventRoute::GraphMouse);
    assert_eq!(route_event(false, AppEvent::Other), EventRoute::Ignore);
    assert_eq!(route_event(true, AppEvent::Other), EventRoute::Ignore);
}

#[test]
fn double_clicks_within_the_window() {
    assert!(is_double_click(Some(120), 300));
    assert!(!is_double_click(Some(300), 300));
    assert!(!is_double_click(Some(5000), 300));
    assert!(!is_double_click(None, 300));
    assert!(!is_double_click(Some(0), 0));
}
