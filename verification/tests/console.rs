use panda_console::colors;
use panda_console::input::{matches_key, scan_for_character, scan_for_key};
use panda_console::{Console, ConsoleError, InputEvent, InputSignal, KeyCode, KeyState};
use panda_console::{RenderLoopMessage, Text};
use panda_console::{DEFAULT_FONT_PATH, DEFAULT_FONT_SIZE, LINE_PADDING, RENDER_LOOP_DELAY};

fn started() -> Console {
    let mut console = Console::new_with_default_typeface(640, 480, "test");
    console.init().unwrap();
    console
}

fn press(key: KeyCode) -> InputEvent {
    InputEvent::KeyboardInput(KeyState::Pressed, Some(key))
}

fn release(key: KeyCode) -> InputEvent {
    InputEvent::KeyboardInput(KeyState::Released, Some(key))
}

fn tick(console: &mut Console, events: Vec<InputEvent>) {
    if !events.is_empty() {
        console.deliver(InputSignal::Batch(events)).unwrap();
    }
    console.deliver(InputSignal::Invalidate).unwrap();
}

#[test]
fn the_constants_are_as_documented() {
    assert_eq!(DEFAULT_FONT_PATH, "fonts/MorePerfectDOSVGA.ttf");
    assert_eq!(DEFAULT_FONT_SIZE, 16);
    assert_eq!(LINE_PADDING, 2);
    assert_eq!(RENDER_LOOP_DELAY, 10);
}

#[test]
fn draw_text_then_is_alive_before_init_fail() {
    let console = Console::new_with_default_typeface(640, 480, "Hello world!");
    let item = Text {
        content: "FPS: 60".to_string(),
        pos_x: 100,
        pos_y: 100,
        color: colors::GREEN,
    };
    assert!(matches!(console.draw_text(item), Err(ConsoleError::NotInitialized)));
    assert!(matches!(console.live_check(), Err(ConsoleError::NotInitialized)));
    assert_eq!(console.is_alive(Some(false)), Err(ConsoleError::NotInitialized));
    assert_eq!(console.is_alive(Some(true)), Err(ConsoleError::NotInitialized));
    assert_eq!(console.is_alive(None), Err(ConsoleError::NotInitialized));
}

#[test]
fn every_runtime_call_before_init_fails() {
    let mut console = Console::new(800, 600, "fonts/other.ttf", "test", 20);
    assert!(matches!(console.clear(), Err(ConsoleError::NotInitialized)));
    assert!(matches!(console.quit(), Err(ConsoleError::NotInitialized)));
    assert_eq!(console.key_pressed(KeyCode::Up), Err(ConsoleError::NotInitialized));
    assert_eq!(console.key_released(KeyCode::Up), Err(ConsoleError::NotInitialized));
    assert_eq!(console.char_entered(), Err(ConsoleError::NotInitialized));
    assert_eq!(console.deliver(InputSignal::Invalidate), Err(ConsoleError::NotInitialized));
    assert_eq!(
        console.deliver(InputSignal::Batch(vec![press(KeyCode::Up)])),
        Err(ConsoleError::NotInitialized)
    );
    console.init().unwrap();
    console.deliver(InputSignal::Invalidate).unwrap();
    assert_eq!(console.key_pressed(KeyCode::Up), Ok(false));
}

#[test]
fn init_gives_the_settings_once() {
    let mut console = Console::new(800, 600, "fonts/other.ttf", "a title", 20);
    let info = console.init().unwrap();
    assert_eq!(info.width, 800);
    assert_eq!(info.height, 600);
    assert_eq!(info.font_path, "fonts/other.ttf");
    assert_eq!(info.title, "a title");
    assert_eq!(info.font_size, 20);
    assert!(matches!(console.init(), Err(ConsoleError::AlreadyInitialized)));
    assert!(matches!(console.clear(), Ok(RenderLoopMessage::Clear)));
}

#[test]
fn the_default_typeface_is_the_bundled_one() {
    let mut console = Console::new_with_default_typeface(640, 480, "Hello world!");
    assert!(console.uses_default_typeface());
    let info = console.init().unwrap();
    assert_eq!(info.width, 640);
    assert_eq!(info.height, 480);
    assert_eq!(info.title, "Hello world!");
    assert_eq!(info.font_path, "fonts/MorePerfectDOSVGA.ttf");
    assert_eq!(info.font_size, 16);
}

#[test]
fn a_custom_typeface_is_not_the_bundled_one() {
    assert!(!Console::new(1, 1, "fonts/other.ttf", "t", 16).uses_default_typeface());
    assert!(!Console::new(1, 1, "", "t", 16).uses_default_typeface());
    assert!(Console::new(1, 1, "fonts/MorePerfectDOSVGA.ttf", "t", 9).uses_default_typeface());
}

#[test]
fn line_height_is_font_size_and_padding() {
    let mut console = Console::new_with_default_typeface(640, 480, "test");
    assert_eq!(console.line_height(), 18);
    console.set_font_size(36);
    assert_eq!(console.line_height(), 38);
    console.set_font_size(0);
    assert_eq!(console.line_height(), 2);
    console.set_font_size(254);
    assert_eq!(console.line_height(), 256);
    console.set_font_size(255);
    assert_eq!(console.line_height(), 257);
}

#[test]
fn set_font_size_before_init_reaches_the_snapshot() {
    let mut console = Console::new_with_default_typeface(640, 480, "test");
    console.set_font_size(36);
    let info = console.init().unwrap();
    assert_eq!(info.font_size, 36);
    assert_eq!(info.width, 640);
    assert_eq!(info.font_path, DEFAULT_FONT_PATH);
    console.set_font_size(12);
    assert_eq!(info.font_size, 36);
    assert_eq!(console.line_height(), 14);
}

#[test]
fn calls_become_messages() {
    let console = started();
    let item = Text {
        content: "FPS: 60".to_string(),
        pos_x: 100,
        pos_y: -7,
        color: colors::GREEN,
    };
    match console.draw_text(item) {
        Ok(RenderLoopMessage::Add { t }) => {
            assert_eq!(t.content, "FPS: 60");
            assert_eq!(t.pos_x, 100);
            assert_eq!(t.pos_y, -7);
            assert_eq!(t.color, colors::GREEN);
        }
        other => panic!("not an add: {:?}", other),
    }
    assert!(matches!(console.clear(), Ok(RenderLoopMessage::Clear)));
    assert!(matches!(console.quit(), Ok(RenderLoopMessage::Quit)));
    assert!(matches!(console.live_check(), Ok(RenderLoopMessage::LiveCheck)));
    assert!(matches!(
        console.send_to_render_thread(RenderLoopMessage::Quit),
        Ok(RenderLoopMessage::Quit)
    ));
}

#[test]
fn is_alive_reads_the_reply() {
    let console = started();
    assert_eq!(console.is_alive(Some(true)), Ok(true));
    assert_eq!(console.is_alive(Some(false)), Ok(false));
    assert_eq!(console.is_alive(None), Err(ConsoleError::RenderThreadUnavailable));
    assert_eq!(console.check_render_thread_alive(Some(true)), Ok(true));
    assert_eq!(
        console.check_render_thread_alive(None),
        Err(ConsoleError::RenderThreadUnavailable)
    );
}

#[test]
fn no_key_is_pressed_before_any_input() {
    let mut console = started();
    assert_eq!(console.key_pressed(KeyCode::Up), Ok(false));
    assert_eq!(console.key_released(KeyCode::Up), Ok(false));
    assert_eq!(console.char_entered(), Ok(None));
}

#[test]
fn a_batch_without_a_pulse_is_not_seen() {
    let mut console = started();
    console.deliver(InputSignal::Batch(vec![press(KeyCode::Up)])).unwrap();
    assert_eq!(console.key_pressed(KeyCode::Up), Ok(false));
    console.deliver(InputSignal::Batch(vec![InputEvent::ReceivedCharacter('q')])).unwrap();
    assert_eq!(console.char_entered(), Ok(None));
    console.deliver(InputSignal::Invalidate).unwrap();
    assert_eq!(console.char_entered(), Ok(Some('q')));
    assert_eq!(console.key_pressed(KeyCode::Up), Ok(false));
}

#[test]
fn key_queries_match_state_and_key() {
    let mut console = started();
    tick(&mut console, vec![InputEvent::Other, press(KeyCode::Up), release(KeyCode::Down)]);
    assert_eq!(console.key_pressed(KeyCode::Up), Ok(true));
    assert_eq!(console.key_released(KeyCode::Up), Ok(false));
    assert_eq!(console.key_pressed(KeyCode::Down), Ok(false));
    assert_eq!(console.key_released(KeyCode::Down), Ok(true));
    assert_eq!(console.key_pressed(KeyCode::Left), Ok(false));
    assert_eq!(console.check_keypress_input(KeyState::Pressed, KeyCode::Up), Ok(true));
    assert_eq!(console.check_keypress_input(KeyState::Released, KeyCode::Up), Ok(false));
}

#[test]
fn an_unnamed_key_matches_nothing() {
    let mut console = started();
    tick(&mut console, vec![InputEvent::KeyboardInput(KeyState::Pressed, None)]);
    assert_eq!(console.key_pressed(KeyCode::Up), Ok(false));
    assert_eq!(console.key_pressed(KeyCode::Key1), Ok(false));
}

#[test]
fn repeated_queries_agree_until_the_next_pulse() {
    let mut console = started();
    tick(&mut console, vec![press(KeyCode::Space)]);
    assert_eq!(console.key_pressed(KeyCode::Space), Ok(true));
    assert_eq!(console.key_pressed(KeyCode::Space), Ok(true));
    console.deliver(InputSignal::Batch(vec![press(KeyCode::Return)])).unwrap();
    assert_eq!(console.key_pressed(KeyCode::Space), Ok(true));
    assert_eq!(console.key_pressed(KeyCode::Return), Ok(false));
    console.deliver(InputSignal::Invalidate).unwrap();
    assert_eq!(console.key_pressed(KeyCode::Space), Ok(false));
    assert_eq!(console.key_pressed(KeyCode::Return), Ok(true));
    assert_eq!(console.key_pressed(KeyCode::Return), Ok(true));
}

#[test]
fn only_the_newest_batch_is_kept() {
    let mut console = started();
    tick(&mut console, vec![press(KeyCode::A)]);
    tick(&mut console, vec![press(KeyCode::B)]);
    tick(&mut console, vec![press(KeyCode::C), InputEvent::ReceivedCharacter('c')]);
    assert_eq!(console.key_pressed(KeyCode::A), Ok(false));
    assert_eq!(console.key_pressed(KeyCode::B), Ok(false));
    assert_eq!(console.key_pressed(KeyCode::C), Ok(true));
    assert_eq!(console.char_entered(), Ok(Some('c')));
    console.deliver(InputSignal::Invalidate).unwrap();
    assert_eq!(console.key_pressed(KeyCode::C), Ok(false));
    assert_eq!(console.char_entered(), Ok(None));
}

#[test]
fn a_pulse_without_a_batch_empties_the_snapshot() {
    let mut console = started();
    tick(&mut console, vec![press(KeyCode::A)]);
    assert_eq!(console.key_pressed(KeyCode::A), Ok(true));
    tick(&mut console, vec![]);
    assert_eq!(console.key_pressed(KeyCode::A), Ok(false));
}

#[test]
fn an_older_batch_is_seen_where_later_ticks_had_none() {
    let mut console = started();
    tick(&mut console, vec![press(KeyCode::A)]);
    tick(&mut console, vec![]);
    tick(&mut console, vec![]);
    assert_eq!(console.key_pressed(KeyCode::A), Ok(true));
}

#[test]
fn refresh_alone_takes_the_newest_batch() {
    let mut console = started();
    tick(&mut console, vec![press(KeyCode::A)]);
    console.refresh_input_cache();
    console.refresh_input_cache();
    assert_eq!(console.key_pressed(KeyCode::A), Ok(true));
}

#[test]
fn char_entered_gives_the_first_character() {
    let mut console = started();
    tick(
        &mut console,
        vec![
            press(KeyCode::H),
            InputEvent::ReceivedCharacter('h'),
            InputEvent::Other,
            InputEvent::ReceivedCharacter('i'),
        ],
    );
    assert_eq!(console.char_entered(), Ok(Some('h')));
    assert_eq!(console.char_entered(), Ok(Some('h')));
    assert_eq!(console.check_char_entered(), Ok(Some('h')));
    tick(&mut console, vec![press(KeyCode::H)]);
    assert_eq!(console.char_entered(), Ok(None));
}

#[test]
fn scans_read_one_batch() {
    let batch = vec![
        release(KeyCode::Tab),
        InputEvent::Closed,
        InputEvent::ReceivedCharacter('\t'),
        press(KeyCode::Tab),
    ];
    assert!(scan_for_key(&batch, KeyState::Pressed, KeyCode::Tab));
    assert!(scan_for_key(&batch, KeyState::Released, KeyCode::Tab));
    assert!(!scan_for_key(&batch, KeyState::Released, KeyCode::Back));
    assert!(!scan_for_key(&vec![], KeyState::Pressed, KeyCode::Tab));
    assert_eq!(scan_for_character(&batch), Some('\t'));
    assert_eq!(scan_for_character(&vec![]), None);
    assert!(matches_key(&batch[3], KeyState::Pressed, KeyCode::Tab));
    assert!(!matches_key(&batch[3], KeyState::Released, KeyCode::Tab));
    assert!(!matches_key(&batch[3], KeyState::Pressed, KeyCode::Back));
    assert!(!matches_key(&batch[2], KeyState::Pressed, KeyCode::Tab));
}
