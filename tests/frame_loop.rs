use std::collections::HashMap;

use tui_app::event::{handle_key_events, InputEvent, KeyCode};
use tui_app::screen::Screen;
use tui_app::terminal::Command;
use tui_app::{App, Element, UpdateResult};

/// A recording terminal: mode, cursor visibility, and the text printed at
/// each position since the last clear.
struct FakeTerminal {
    raw_mode: bool,
    cursor_visible: bool,
    cursor: (u16, u16),
    cells: HashMap<(u16, u16), String>,
    mode_toggles: Vec<bool>,
}

impl FakeTerminal {
    fn new() -> FakeTerminal {
        FakeTerminal {
            raw_mode: false,
            cursor_visible: true,
            cursor: (0, 0),
            cells: HashMap::new(),
            mode_toggles: Vec::new(),
        }
    }

    fn run(&mut self, cmds: Vec<Command>) {
        for c in cmds {
            match c {
                Command::EnableRawMode => {
                    self.raw_mode = true;
                    self.mode_toggles.push(true);
                }
                Command::DisableRawMode => {
                    self.raw_mode = false;
                    self.mode_toggles.push(false);
                }
                Command::ClearAll => self.cells.clear(),
                Command::HideCursor => self.cursor_visible = false,
                Command::ShowCursor => self.cursor_visible = true,
                Command::MoveTo(x, y) => self.cursor = (x, y),
                Command::Print(t) => {
                    let n = t.chars().count() as u16;
                    self.cells.insert(self.cursor, t);
                    self.cursor.0 += n;
                }
                Command::Flush => {}
            }
        }
    }
}

fn labels(texts: &[&str]) -> Vec<Element> {
    texts.iter().map(|t| Element::Label(t.to_string())).collect()
}

#[test]
fn no_events_continue() {
    assert_eq!(handle_key_events(&Vec::new()), UpdateResult::Continue);
}

#[test]
fn escape_among_other_events_exits() {
    let events = vec![
        InputEvent::FocusGained,
        InputEvent::Key(KeyCode::Char('q')),
        InputEvent::Key(KeyCode::Esc),
        InputEvent::Mouse,
    ];
    assert_eq!(handle_key_events(&events), UpdateResult::Exit);
}

#[test]
fn ignored_events_continue() {
    let events = vec![
        InputEvent::FocusGained,
        InputEvent::FocusLost,
        InputEvent::Key(KeyCode::Char('x')),
        InputEvent::Key(KeyCode::Other),
        InputEvent::Mouse,
        InputEvent::Paste("pasted".to_string()),
        InputEvent::Resize(80, 24),
    ];
    assert_eq!(handle_key_events(&events), UpdateResult::Continue);
}

#[test]
fn render_empty_frame() {
    let cmds = Screen::render(&Vec::new());
    assert_eq!(cmds, vec![Command::ClearAll, Command::HideCursor, Command::Flush]);
    let mut term = FakeTerminal::new();
    term.cells.insert((3, 4), "old".to_string());
    term.run(cmds);
    assert!(term.cells.is_empty());
    assert!(!term.cursor_visible);
}

#[test]
fn render_two_labels_shows_last() {
    let cmds = Screen::render(&labels(&["A", "B"]));
    assert_eq!(
        cmds,
        vec![
            Command::ClearAll,
            Command::HideCursor,
            Command::MoveTo(0, 0),
            Command::Print("A".to_string()),
            Command::MoveTo(0, 0),
            Command::Print("B".to_string()),
            Command::Flush,
        ]
    );
    let mut term = FakeTerminal::new();
    term.run(cmds);
    assert_eq!(term.cells.len(), 1);
    assert_eq!(term.cells.get(&(0, 0)), Some(&"B".to_string()));
}

#[test]
fn screen_new_asks_for_raw_mode() {
    let mut screen = Screen::new();
    assert!(screen.is_open());
    assert_eq!(screen.take_commands(), vec![Command::EnableRawMode]);
    assert_eq!(screen.take_commands(), Vec::new());
}

#[test]
fn screen_update_with_escape_does_not_render() {
    let mut screen = Screen::new();
    screen.take_commands();
    let r = screen.update(&vec![InputEvent::Key(KeyCode::Esc)], &labels(&["A"]));
    assert_eq!(r, UpdateResult::Exit);
    assert_eq!(screen.take_commands(), Vec::new());
}

#[test]
fn screen_update_renders_frame() {
    let mut screen = Screen::new();
    screen.take_commands();
    let r = screen.update(&vec![InputEvent::Resize(10, 10)], &labels(&["hi"]));
    assert_eq!(r, UpdateResult::Continue);
    assert_eq!(
        screen.take_commands(),
        vec![
            Command::ClearAll,
            Command::HideCursor,
            Command::MoveTo(0, 0),
            Command::Print("hi".to_string()),
            Command::Flush,
        ]
    );
}

#[test]
fn screen_close_restores_once() {
    let mut screen = Screen::new();
    screen.take_commands();
    screen.close();
    assert!(!screen.is_open());
    assert_eq!(
        screen.take_commands(),
        vec![
            Command::DisableRawMode,
            Command::ClearAll,
            Command::ShowCursor,
            Command::Flush,
        ]
    );
    screen.close();
    assert_eq!(screen.take_commands(), Vec::new());
}

#[test]
fn open_then_close_leaves_cooked_mode() {
    let mut app = App::new(0u32);
    app.close();
    let mut term = FakeTerminal::new();
    term.run(app.take_commands());
    assert!(!term.raw_mode);
    assert!(term.cursor_visible);
    assert_eq!(term.mode_toggles, vec![true, false]);
}

#[test]
fn context_label_appends_in_order() {
    let mut app = App::new(5u32);
    let mut elements = Vec::new();
    {
        let mut ctx = app.context(&mut elements);
        *ctx.state += 1;
        ctx.label("one").label("two");
    }
    assert_eq!(elements, labels(&["one", "two"]));
    assert_eq!(*app.state(), 6);
}

#[test]
fn two_tick_scenario() {
    let mut app = App::new(());
    let mut term = FakeTerminal::new();
    term.run(app.take_commands());
    assert!(term.raw_mode);

    let mut elements = Vec::new();
    app.context(&mut elements).label("A").label("B");
    let r = app.end_tick(UpdateResult::Continue, &Vec::new(), &elements);
    assert_eq!(r, UpdateResult::Continue);
    assert!(app.running());
    term.run(app.take_commands());
    assert_eq!(term.cells.get(&(0, 0)), Some(&"B".to_string()));

    let elements = Vec::new();
    let r = app.end_tick(UpdateResult::Exit, &Vec::new(), &elements);
    assert_eq!(r, UpdateResult::Exit);
    assert!(!app.running());
    term.run(app.take_commands());
    assert!(term.cells.is_empty());

    app.close();
    term.run(app.take_commands());
    assert!(!term.raw_mode);
    assert!(term.cursor_visible);
}

#[test]
fn escape_between_ticks_stops_loop() {
    let mut app = App::new(0u8);
    app.take_commands();
    let r = app.end_tick(UpdateResult::Continue, &Vec::new(), &labels(&["x"]));
    assert_eq!(r, UpdateResult::Continue);
    app.take_commands();
    let r = app.end_tick(UpdateResult::Continue, &vec![InputEvent::Key(KeyCode::Esc)], &labels(&["x"]));
    assert_eq!(r, UpdateResult::Exit);
    assert!(!app.running());
    assert_eq!(app.take_commands(), Vec::new());
}

#[test]
fn non_exit_events_keep_running() {
    let mut app = App::new(0u8);
    let events = vec![InputEvent::Key(KeyCode::Char('a')), InputEvent::FocusLost, InputEvent::Mouse];
    let r = app.end_tick(UpdateResult::Continue, &events, &Vec::new());
    assert_eq!(r, UpdateResult::Continue);
    assert!(app.running());
}

#[test]
fn fatal_path_still_restores_terminal() {
    let mut app = App::new(0u8);
    let mut term = FakeTerminal::new();
    term.run(app.take_commands());
    app.end_tick(UpdateResult::Continue, &Vec::new(), &labels(&["busy"]));
    term.run(app.take_commands());
    assert!(term.raw_mode);
    assert!(!term.cursor_visible);
    app.close();
    term.run(app.take_commands());
    assert!(!term.raw_mode);
    assert!(term.cursor_visible);
    assert!(term.cells.is_empty());
}
