use roguelike::common::{DeltaNotification, Dir, InputEvent, MutateCommand, Ticker};
use roguelike::controller::RunState;
use roguelike::user_input::{Key, TermEvent, UserInput, ALT, CONTROL, NONE, SHIFT};

fn key(code: Key) -> InputEvent {
    UserInput::translate(TermEvent::Key { code, modifiers: NONE })
}

#[test]
fn keys_without_modifiers() {
    assert_eq!(key(Key::Backspace), InputEvent::Delete);
    assert_eq!(key(Key::Delete), InputEvent::Delete);
    assert_eq!(key(Key::Enter), InputEvent::Confirm);
    assert_eq!(key(Key::Esc), InputEvent::Cancel);
    assert_eq!(key(Key::Tab), InputEvent::Tab);
    assert_eq!(key(Key::BackTab), InputEvent::BackTab);
    assert_eq!(key(Key::F(1)), InputEvent::Menu);
    assert_eq!(key(Key::F(12)), InputEvent::Menu);
    assert_eq!(key(Key::Left), InputEvent::Hjkl(Dir::W));
    assert_eq!(key(Key::Right), InputEvent::Hjkl(Dir::E));
    assert_eq!(key(Key::Up), InputEvent::Hjkl(Dir::N));
    assert_eq!(key(Key::Down), InputEvent::Hjkl(Dir::S));
    for silent in [Key::Home, Key::End, Key::PageUp, Key::PageDown, Key::Insert, Key::Null] {
        assert_eq!(key(silent), InputEvent::Null);
    }
}

#[test]
fn character_keys() {
    let wasd = [
        ('w', Dir::N),
        ('e', Dir::NE),
        ('d', Dir::E),
        ('c', Dir::SE),
        ('s', Dir::S),
        ('z', Dir::SW),
        ('a', Dir::W),
        ('q', Dir::NW),
    ];
    for (c, dir) in wasd {
        assert_eq!(key(Key::Char(c)), InputEvent::Wasd(dir));
    }
    let hjkl = [('h', Dir::W), ('j', Dir::S), ('k', Dir::N), ('l', Dir::E)];
    for (c, dir) in hjkl {
        assert_eq!(key(Key::Char(c)), InputEvent::Hjkl(dir));
    }
    for c in ['W', 'x', ' ', '1', 'C'] {
        assert_eq!(key(Key::Char(c)), InputEvent::Null);
    }
}

#[test]
fn control_c_alone_ends_the_program() {
    let with = |code: Key, modifiers: u8| UserInput::translate(TermEvent::Key { code, modifiers });
    assert_eq!(with(Key::Char('c'), CONTROL), InputEvent::Exit);
    assert_eq!(with(Key::Char('c'), CONTROL | SHIFT), InputEvent::Wasd(Dir::SE));
    assert_eq!(with(Key::Char('c'), CONTROL | ALT), InputEvent::Wasd(Dir::SE));
    assert_eq!(with(Key::Char('c'), SHIFT), InputEvent::Wasd(Dir::SE));
    assert_eq!(with(Key::Char('c'), ALT), InputEvent::Wasd(Dir::SE));
    assert_eq!(with(Key::Char('C'), CONTROL), InputEvent::Null);
    assert_eq!(with(Key::Char('d'), CONTROL), InputEvent::Wasd(Dir::E));
    assert_eq!(with(Key::Enter, CONTROL), InputEvent::Confirm);
    assert_eq!(with(Key::Esc, SHIFT), InputEvent::Cancel);
}

#[test]
fn modifier_bits() {
    assert_eq!((NONE, SHIFT, CONTROL, ALT), (0, 1, 2, 4));
}

#[test]
fn mouse_and_resize_mean_nothing() {
    assert_eq!(UserInput::translate(TermEvent::Mouse), InputEvent::Null);
    assert_eq!(UserInput::translate(TermEvent::Resize(80, 24)), InputEvent::Null);
}

#[test]
fn the_controller_forwards_every_input() {
    let forward = roguelike::controller::react(InputEvent::Exit);
    assert_eq!(forward.to_view, InputEvent::Exit);
    assert_eq!(forward.ticker, Ticker::ExitProgram);
    for input in [InputEvent::Confirm, InputEvent::Null, InputEvent::Wasd(Dir::NW), InputEvent::Menu] {
        let forward = roguelike::controller::react(input);
        assert_eq!(forward.to_view, input);
        assert_eq!(forward.ticker, Ticker::Continue);
    }
}

#[test]
fn the_view_reacts_to_confirm_and_exit() {
    let reaction = roguelike::tui::react(InputEvent::Confirm);
    assert_eq!(reaction.to_model, Some(MutateCommand::Test));
    assert_eq!(reaction.ticker, Ticker::Continue);
    let reaction = roguelike::tui::react(InputEvent::Exit);
    assert_eq!(reaction.to_model, Some(MutateCommand::Exit));
    assert_eq!(reaction.ticker, Ticker::ExitProgram);
    for input in [InputEvent::Cancel, InputEvent::Hjkl(Dir::S), InputEvent::Tab, InputEvent::Null] {
        let reaction = roguelike::tui::react(input);
        assert_eq!(reaction.to_model, None);
        assert_eq!(reaction.ticker, Ticker::Continue);
    }
}

#[test]
fn the_model_responds_to_test_and_exit() {
    let response = roguelike::gameworld::react(MutateCommand::Test);
    assert!(response.show_map);
    assert_eq!(response.ticker, Ticker::Continue);
    let response = roguelike::gameworld::react(MutateCommand::Exit);
    assert!(!response.show_map);
    assert_eq!(response.ticker, Ticker::ExitProgram);
    assert_eq!(DeltaNotification::MapDirty, DeltaNotification::MapDirty);
}

#[test]
fn run_states_clone_to_equal_depth() {
    let nested = RunState::AwaitingInput {
        previous: Box::new(RunState::AwaitingInput { previous: Box::new(RunState::MainMenu) }),
    };
    let copy = nested.clone();
    assert_eq!(format!("{:?}", copy), format!("{:?}", nested));
    assert_eq!(format!("{:?}", RunState::Tui.clone()), "Tui");
}
