use panda_console::colors;
use panda_console::ui::{IndexedElement, SingleSelect, UIElement};
use panda_console::{Console, ConsoleError, InputEvent, InputSignal, KeyCode, KeyState};
use panda_console::{RenderLoop, RenderLoopMessage, Text};

/// Both endpoints and what is on its way between them.
struct Wire {
    console: Console,
    render: RenderLoop,
    to_render: Vec<RenderLoopMessage>,
    replies: Vec<bool>,
}

fn wired() -> Wire {
    let mut console = Console::new_with_default_typeface(640, 480, "test");
    let info = console.init().unwrap();
    Wire { console, render: RenderLoop::new(info), to_render: vec![], replies: vec![] }
}

fn tick(wire: &mut Wire, events: Vec<InputEvent>) {
    for signal in wire.render.poll_input(events) {
        wire.console.deliver(signal).unwrap();
    }
    let msgs: Vec<RenderLoopMessage> = wire.to_render.drain(..).collect();
    let replies = wire.render.apply_messages(msgs);
    wire.replies.extend(replies);
    if let Some(last) = wire.render.finish_tick() {
        wire.replies.push(last);
    }
}

fn is_alive(wire: &mut Wire) -> Result<bool, ConsoleError> {
    wire.to_render.push(wire.console.live_check()?);
    while wire.replies.is_empty() && wire.render.is_running() {
        tick(wire, vec![]);
    }
    let reply = if wire.replies.is_empty() { None } else { Some(wire.replies.remove(0)) };
    wire.console.is_alive(reply)
}

fn shown(wire: &Wire) -> Vec<String> {
    wire.render.text_buffer().iter().map(|t| t.content.clone()).collect()
}

fn say(wire: &mut Wire, content: &str) {
    let item = Text { content: content.to_string(), pos_x: 0, pos_y: 0, color: colors::GREEN };
    let msg = wire.console.draw_text(item).unwrap();
    wire.to_render.push(msg);
}

#[test]
fn what_is_drawn_is_shown_until_cleared() {
    let mut wire = wired();
    say(&mut wire, "one");
    say(&mut wire, "two");
    tick(&mut wire, vec![]);
    assert_eq!(shown(&wire), vec!["one", "two"]);
    tick(&mut wire, vec![]);
    assert_eq!(shown(&wire), vec!["one", "two"]);
    let clear = wire.console.clear().unwrap();
    wire.to_render.push(clear);
    say(&mut wire, "three");
    tick(&mut wire, vec![]);
    assert_eq!(shown(&wire), vec!["three"]);
}

#[test]
fn the_loop_is_alive_until_it_is_told_to_quit() {
    let mut wire = wired();
    assert_eq!(is_alive(&mut wire), Ok(true));
    assert_eq!(is_alive(&mut wire), Ok(true));
    let quit = wire.console.quit().unwrap();
    wire.to_render.push(quit);
    assert_eq!(is_alive(&mut wire), Ok(false));
    assert_eq!(wire.replies, vec![false]);
    assert!(!wire.render.is_running());
}

#[test]
fn a_live_check_sent_after_the_loop_stopped_finds_the_farewell() {
    let mut wire = wired();
    let quit = wire.console.quit().unwrap();
    wire.to_render.push(quit);
    tick(&mut wire, vec![]);
    assert_eq!(wire.replies, vec![false]);
    assert_eq!(is_alive(&mut wire), Ok(false));
    assert_eq!(is_alive(&mut wire), Err(ConsoleError::RenderThreadUnavailable));
}

#[test]
fn closing_the_window_ends_the_loop() {
    let mut wire = wired();
    assert_eq!(is_alive(&mut wire), Ok(true));
    tick(&mut wire, vec![InputEvent::Closed]);
    assert_eq!(wire.replies, vec![false]);
    assert_eq!(is_alive(&mut wire), Ok(false));
}

#[test]
fn the_handle_sees_the_newest_tick_with_events() {
    let mut wire = wired();
    let up = InputEvent::KeyboardInput(KeyState::Pressed, Some(KeyCode::Up));
    let down = InputEvent::KeyboardInput(KeyState::Pressed, Some(KeyCode::Down));
    assert_eq!(wire.console.key_pressed(KeyCode::Up), Ok(false));
    tick(&mut wire, vec![up]);
    tick(&mut wire, vec![down, InputEvent::ReceivedCharacter('d')]);
    assert_eq!(wire.console.key_pressed(KeyCode::Up), Ok(false));
    assert_eq!(wire.console.key_pressed(KeyCode::Down), Ok(true));
    assert_eq!(wire.console.key_pressed(KeyCode::Down), Ok(true));
    assert_eq!(wire.console.char_entered(), Ok(Some('d')));
    tick(&mut wire, vec![]);
    assert_eq!(wire.console.key_pressed(KeyCode::Down), Ok(false));
    assert_eq!(wire.console.char_entered(), Ok(None));
}

#[test]
fn events_behind_a_close_request_do_not_reach_the_handle() {
    let mut wire = wired();
    let up = InputEvent::KeyboardInput(KeyState::Pressed, Some(KeyCode::Up));
    let down = InputEvent::KeyboardInput(KeyState::Pressed, Some(KeyCode::Down));
    tick(&mut wire, vec![up, InputEvent::Closed, down]);
    assert_eq!(wire.console.key_pressed(KeyCode::Up), Ok(true));
    assert_eq!(wire.console.key_pressed(KeyCode::Down), Ok(false));
}

#[test]
fn a_menu_is_drawn_and_steered_through_the_wire() {
    let mut wire = wired();
    let mut menu = SingleSelect::<&str>::new();
    menu.add("Item 1");
    menu.add("Item 2");
    menu.add("Item 3");
    let down = InputEvent::KeyboardInput(KeyState::Pressed, Some(KeyCode::Down));
    tick(&mut wire, vec![down]);
    menu.update(&mut wire.console).unwrap();
    assert_eq!(menu.current_index(), 1);
    let clear = wire.console.clear().unwrap();
    wire.to_render.push(clear);
    say(&mut wire, "FPS: 60");
    let lines = menu.draw(&wire.console).unwrap();
    wire.to_render.extend(lines);
    tick(&mut wire, vec![]);
    assert_eq!(shown(&wire), vec!["FPS: 60", " Item 1", "> Item 2", " Item 3"]);
    let rows: Vec<i32> = wire.render.text_buffer().iter().map(|t| t.pos_y).collect();
    assert_eq!(rows, vec![0, 0, 18, 36]);
}
