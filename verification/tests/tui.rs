use roguelike::common::{InputEvent, Ticker};

#[test]
fn test_0() {
    // An input that means nothing changes nothing.
    let reaction = roguelike::tui::react(InputEvent::Null);
    assert_eq!(reaction.to_model, None);
    assert_eq!(reaction.ticker, Ticker::Continue);
}

#[test]
fn mod_test_0() {
    let reaction = roguelike::tui::react(InputEvent::Menu);
    assert_eq!(reaction.to_model, None);
    assert_eq!(reaction.ticker, Ticker::Continue);
}
