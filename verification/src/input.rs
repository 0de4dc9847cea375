//! What keys and mouse events do in the graph view. The decisions are made
//! here; the caller carries them out on the view and the layout.
use vstd::prelude::*;

verus! {

/// A key, as far as the graph view tells keys apart.
#[derive(Clone, Copy, Debug, PartialEq, Eq, Structural)]
pub enum KeyInput {
    Esc,
    Enter,
    Up,
    Down,
    Left,
    Right,
    Char(char),
    Other,
}

/// What a key asks of the graph view.
#[derive(Clone, Copy, Debug, PartialEq, Eq, Structural)]
pub enum KeyCommand {
    Quit,
    PanUp,
    PanDown,
    PanLeft,
    PanRight,
    ZoomIn,
    ZoomOut,
    OpenSelected,
    AutoFit,
    Help,
    Ignore,
}

/// The command of each key: `q` or Esc quits, the arrows pan, `+` or `=`
/// zooms in, `-` zooms out, Enter opens the selected file, `a` fits the view
/// to the graph, `?` shows the help; other keys do nothing.
pub open spec fn key_command(key: KeyInput) -> KeyCommand {
    match key {
        KeyInput::Esc => KeyCommand::Quit,
        KeyInput::Char('q') => KeyCommand::Quit,
        KeyInput::Up => KeyCommand::PanUp,
        KeyInput::Down => KeyCommand::PanDown,
        KeyInput::Left => KeyCommand::PanLeft,
        KeyInput::Right => KeyCommand::PanRight,
        KeyInput::Char('+') => KeyCommand::ZoomIn,
        KeyInput::Char('=') => KeyCommand::ZoomIn,
        KeyInput::Char('-') => KeyCommand::ZoomOut,
        KeyInput::Enter => KeyCommand::OpenSelected,
        KeyInput::Char('a') => KeyCommand::AutoFit,
        KeyInput::Char('?') => KeyCommand::Help,
        _ => KeyCommand::Ignore,
    }
}

/// The command a key gives in the graph view.
pub fn handle_graph_keys(key: KeyInput) -> (r: KeyCommand)
    ensures
        r == key_command(key),
{
    match key {
        KeyInput::Esc => KeyCommand::Quit,
        KeyInput::Up => KeyCommand::PanUp,
        KeyInput::Down => KeyCommand::PanDown,
        KeyInput::Left => KeyCommand::PanLeft,
        KeyInput::Right => KeyCommand::PanRight,
        KeyInput::Enter => KeyCommand::OpenSelected,
        KeyInput::Char(c) => {
            if c == 'q' {
                KeyCommand::Quit
            } else if c == '+' || c == '=' {
                KeyCommand::ZoomIn
            } else if c == '-' {
                KeyCommand::ZoomOut
            } else if c == 'a' {
                KeyCommand::AutoFit
            } else if c == '?' {
                KeyCommand::Help
            } else {
                KeyCommand::Ignore
            }
        },
        KeyInput::Other => KeyCommand::Ignore,
    }
}

/// An event of the main loop: a key (pressed, or released or repeated), a
/// mouse event, or anything else.
#[derive(Clone, Copy, Debug, PartialEq, Eq, Structural)]
pub enum AppEvent {
    Key(KeyInput, bool),
    Mouse,
    Other,
}

/// Where the main loop sends an event.
#[derive(Clone, Copy, Debug, PartialEq, Eq, Structural)]
pub enum EventRoute {
    /// Hide the help screen.
    CloseHelp,
    /// Hand the key to the graph view.
    GraphKey,
    /// Hand the mouse event to the graph view.
    GraphMouse,
    /// Drop the event.
    Ignore,
}

/// While the help screen shows, a press of Esc or `?` hides it and every
/// other event is dropped; otherwise keys and mouse events go to the graph
/// view.
pub open spec fn event_route(show_help: bool, event: AppEvent) -> EventRoute {
    match event {
        AppEvent::Key(key, pressed) => if show_help {
            if pressed && (key == KeyInput::Esc || key == KeyInput::Char('?')) {
                EventRoute::CloseHelp
            } else {
                EventRoute::Ignore
            }
        } else {
            EventRoute::GraphKey
        },
        AppEvent::Mouse => if show_help {
            EventRoute::Ignore
        } else {
            EventRoute::GraphMouse
        },
        AppEvent::Other => EventRoute::Ignore,
    }
}

/// Where the main loop sends an event, given whether the help screen shows.
pub fn route_event(show_help: bool, event: AppEvent) -> (r: EventRoute)
    ensures
        r == event_route(show_help, event),
{
    match event {
        AppEvent::Key(key, pressed) => {
            if show_help {
                let closes = match key {
                    KeyInput::Esc => true,
                    KeyInput::Char(c) => c == '?',
                    _ => false,
                };
                if pressed && closes {
                    EventRoute::CloseHelp
                } else {
                    EventRoute::Ignore
                }
            } else {
                EventRoute::GraphKey
            }
        },
        AppEvent::Mouse => if show_help {
            EventRoute::Ignore
        } else {
            EventRoute::GraphMouse
        },
        AppEvent::Other => EventRoute::Ignore,
    }
}

/// Whether a press is a double click: the last click was less than
/// `window_ms` milliseconds ago (`elapsed_ms`, none when there was no click
/// yet).
pub open spec fn double_click_spec(elapsed_ms: Option<u128>, window_ms: u64) -> bool {
    match elapsed_ms {
        Some(e) => e < window_ms,
        None => false,
    }
}

/// Whether a press is a double click, given the time since the last click.
pub fn is_double_click(elapsed_ms: Option<u128>, window_ms: u64) -> (r: bool)
    ensures
        r == double_click_spec(elapsed_ms, window_ms),
{
    match elapsed_ms {
        Some(e) => e < window_ms as u128,
        None => false,
    }
}

/// A mouse event, as far as the graph view tells events apart; positions are
/// terminal cells (column, row).
#[derive(Clone, Copy, Debug, PartialEq, Eq, Structural)]
pub enum MouseInput {
    ScrollUp,
    ScrollDown,
    LeftDown(u16, u16),
    LeftDrag(u16, u16),
    LeftUp,
    Other,
}

/// A terminal cell: column and row.
#[derive(Clone, Copy, Debug, PartialEq, Eq, Structural)]
pub struct Cell {
    pub col: u16,
    pub row: u16,
}

/// What the mouse is doing in the graph view between events.
#[derive(Clone, Copy, Debug, PartialEq, Eq, Structural)]
pub struct GraphMouseState {
    /// Where the current drag last was, while the left button is down.
    pub drag_origin: Option<Cell>,
    /// The current drag moves the view rather than a node.
    pub is_panning: bool,
    /// The node the last press landed on.
    pub last_clicked_node: Option<usize>,
}

impl Default for GraphMouseState {
    /// No button held, nothing clicked yet.
    fn default() -> (r: GraphMouseState)
        ensures
            r.drag_origin is None,
            !r.is_panning,
            r.last_clicked_node is None,
    {
        GraphMouseState { drag_origin: None, is_panning: false, last_clicked_node: None }
    }
}

/// What a mouse event asks of the graph view.
#[derive(Clone, Copy, Debug, PartialEq, Eq, Structural)]
pub enum MouseCommand {
    Nothing,
    ZoomIn,
    ZoomOut,
    /// Select the node and start dragging it; on a double click, also open
    /// its file.
    GrabNode { node: usize, open: bool },
    /// Stop dragging any node and start moving the view; on a double click,
    /// also clear the selection.
    GrabBackground { deselect: bool },
    /// Move the view by the distance the pointer went.
    Pan { from: Cell, to: Cell },
    /// Move the node being dragged, if any, to the pointer.
    MoveNode { to: Cell },
    /// Drop whatever is dragged and note the time of the click.
    Release,
}

/// One mouse event in the graph view: the next mouse state and the command,
/// given the node under the pointer (`hit`) and whether the press comes
/// within the double-click time of the last release.
pub open spec fn mouse_step(
    s: GraphMouseState,
    event: MouseInput,
    hit: Option<usize>,
    double_click: bool,
) -> (GraphMouseState, MouseCommand) {
    match event {
        MouseInput::ScrollUp => (s, MouseCommand::ZoomIn),
        MouseInput::ScrollDown => (s, MouseCommand::ZoomOut),
        MouseInput::LeftDown(col, row) => match hit {
            Some(n) => (
                GraphMouseState { drag_origin: Some(Cell { col, row }), is_panning: false, last_clicked_node: Some(n) },
                MouseCommand::GrabNode { node: n, open: double_click },
            ),
            None => (
                GraphMouseState { drag_origin: Some(Cell { col, row }), is_panning: true, last_clicked_node: None },
                MouseCommand::GrabBackground { deselect: double_click },
            ),
        },
        MouseInput::LeftDrag(col, row) => match s.drag_origin {
            None => (s, MouseCommand::Nothing),
            Some(origin) => (
                GraphMouseState { drag_origin: Some(Cell { col, row }), ..s },
                if s.is_panning {
                    MouseCommand::Pan { from: origin, to: Cell { col, row } }
                } else {
                    MouseCommand::MoveNode { to: Cell { col, row } }
                },
            ),
        },
        MouseInput::LeftUp => (
            GraphMouseState { drag_origin: None, is_panning: false, ..s },
            MouseCommand::Release,
        ),
        MouseInput::Other => (s, MouseCommand::Nothing),
    }
}

/// Handles one mouse event in the graph view: updates the mouse state and
/// returns what the view should do.
pub fn handle_graph_mouse(
    state: &mut GraphMouseState,
    event: MouseInput,
    hit: Option<usize>,
    double_click: bool,
) -> (r: MouseCommand)
    ensures
        (*final(state), r) == mouse_step(*old(state), event, hit, double_click),
{
    match event {
        MouseInput::ScrollUp => MouseCommand::ZoomIn,
        MouseInput::ScrollDown => MouseCommand::ZoomOut,
        MouseInput::LeftDown(col, row) => {
            state.drag_origin = Some(Cell { col, row });
            match hit {
                Some(n) => {
                    state.is_panning = false;
                    state.last_clicked_node = Some(n);
                    MouseCommand::GrabNode { node: n, open: double_click }
                },
                None => {
                    state.is_panning = true;
                    state.last_clicked_node = None;
                    MouseCommand::GrabBackground { deselect: double_click }
                },
            }
        },
        MouseInput::LeftDrag(col, row) => match state.drag_origin {
            None => MouseCommand::Nothing,
            Some(origin) => {
                state.drag_origin = Some(Cell { col, row });
                if state.is_panning {
                    MouseCommand::Pan { from: origin, to: Cell { col, row } }
                } else {
                    MouseCommand::MoveNode { to: Cell { col, row } }
                }
            },
        },
        MouseInput::LeftUp => {
            state.drag_origin = None;
            state.is_panning = false;
            MouseCommand::Release
        },
        MouseInput::Other => MouseCommand::Nothing,
    }
}

/// After the button is released, dragging does nothing until the next press:
/// the view and the nodes stay where they are.
pub proof fn lemma_no_drag_after_release(
    s: GraphMouseState,
    hit: Option<usize>,
    double_click: bool,
    col: u16,
    row: u16,
    hit2: Option<usize>,
    double_click2: bool,
)
    ensures
        ({
            let after = mouse_step(s, MouseInput::LeftUp, hit, double_click).0;
            mouse_step(after, MouseInput::LeftDrag(col, row), hit2, double_click2) == (
                after,
                MouseCommand::Nothing,
            )
        }),
{
}

/// A press and a drag move exactly what the press landed on: a node under
/// the pointer is moved, the view otherwise, and a pan covers the distance
/// from the press to the drag.
pub proof fn lemma_press_then_drag(
    s: GraphMouseState,
    hit: Option<usize>,
    double_click: bool,
    down: Cell,
    drag: Cell,
    hit2: Option<usize>,
    double_click2: bool,
)
    ensures
        ({
            let after = mouse_step(s, MouseInput::LeftDown(down.col, down.row), hit, double_click).0;
            let cmd = mouse_step(after, MouseInput::LeftDrag(drag.col, drag.row), hit2, double_click2).1;
            match hit {
                Some(_) => cmd == MouseCommand::MoveNode { to: drag },
                None => cmd == MouseCommand::Pan { from: down, to: drag },
            }
        }),
{
}

/// While the help screen shows, no event reaches the graph view; once it is
/// hidden, every key and mouse event does.
pub proof fn lemma_help_screen_holds_events(event: AppEvent)
    ensures
        event_route(true, event) == EventRoute::CloseHelp || event_route(true, event) == EventRoute::Ignore,
        event matches AppEvent::Key(_, _) ==> event_route(false, event) == EventRoute::GraphKey,
        event == AppEvent::Mouse ==> event_route(false, event) == EventRoute::GraphMouse,
{
}

/// A press of the left button grabs what is under the pointer: a node is
/// selected and, on a double click, opened; on the background the view is
/// grabbed for panning, and the selection is cleared only by a double click.
/// Either way the press is where a following drag starts.
pub proof fn lemma_press_grabs(s: GraphMouseState, col: u16, row: u16, hit: Option<usize>, double_click: bool)
    ensures
        ({
            let (after, cmd) = mouse_step(s, MouseInput::LeftDown(col, row), hit, double_click);
            &&& after.drag_origin == Some(Cell { col, row })
            &&& match hit {
                Some(n) => {
                    &&& cmd == MouseCommand::GrabNode { node: n, open: double_click }
                    &&& after.last_clicked_node == Some(n)
                    &&& !after.is_panning
                },
                None => {
                    &&& cmd == MouseCommand::GrabBackground { deselect: double_click }
                    &&& after.is_panning
                },
            }
        }),
        !double_click ==> mouse_step(s, MouseInput::LeftDown(col, row), None, double_click).1
            == (MouseCommand::GrabBackground { deselect: false }),
{
}

/// Scrolling zooms (up in, down out) and leaves the mouse state alone; a
/// release ends the drag; other events do nothing.
pub proof fn lemma_scroll_and_release(s: GraphMouseState, hit: Option<usize>, double_click: bool)
    ensures
        mouse_step(s, MouseInput::ScrollUp, hit, double_click) == (s, MouseCommand::ZoomIn),
        mouse_step(s, MouseInput::ScrollDown, hit, double_click) == (s, MouseCommand::ZoomOut),
        mouse_step(s, MouseInput::Other, hit, double_click) == (s, MouseCommand::Nothing),
        mouse_step(s, MouseInput::LeftUp, hit, double_click).1 == MouseCommand::Release,
        (mouse_step(s, MouseInput::LeftUp, hit, double_click).0.drag_origin is None),
        mouse_step(s, MouseInput::LeftUp, hit, double_click).0.last_clicked_node == s.last_clicked_node,
{
}

/// The keys of the graph view: `q` and Esc quit, the arrows pan, `+` and `=`
/// zoom in, `-` zooms out, Enter opens the selected file, `a` fits the view,
/// `?` shows the help; every other character does nothing.
pub proof fn lemma_key_commands(c: char)
    ensures
        key_command(KeyInput::Esc) == KeyCommand::Quit,
        key_command(KeyInput::Char('q')) == KeyCommand::Quit,
        key_command(KeyInput::Up) == KeyCommand::PanUp,
        key_command(KeyInput::Down) == KeyCommand::PanDown,
        key_command(KeyInput::Left) == KeyCommand::PanLeft,
        key_command(KeyInput::Right) == KeyCommand::PanRight,
        key_command(KeyInput::Char('+')) == KeyCommand::ZoomIn,
        key_command(KeyInput::Char('=')) == KeyCommand::ZoomIn,
        key_command(KeyInput::Char('-')) == KeyCommand::ZoomOut,
        key_command(KeyInput::Enter) == KeyCommand::OpenSelected,
        key_command(KeyInput::Char('a')) == KeyCommand::AutoFit,
        key_command(KeyInput::Char('?')) == KeyCommand::Help,
        key_command(KeyInput::Other) == KeyCommand::Ignore,
        c != 'q' && c != '+' && c != '=' && c != '-' && c != 'a' && c != '?' ==> key_command(KeyInput::Char(c))
            == KeyCommand::Ignore,
{
}

/// A press is a double click exactly when the last click was less than the
/// window ago; with no click yet, it never is.
pub proof fn lemma_double_click_window(elapsed: u128, window_ms: u64)
    ensures
        double_click_spec(Some(elapsed), window_ms) <==> elapsed < window_ms,
        !double_click_spec(None, window_ms),
{
}

} // verus!
