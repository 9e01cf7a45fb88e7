use ratatui_eventInput::Input;
use ratatui_eventInput::Key;
use ratatui_eventInput::Modifier;
use ratatui_eventInput::Side;
use rmusic_tui::settings::input::pressed;
use rmusic_tui::settings::input::InputMap;
use rmusic_tui::settings::input::Media;
use rmusic_tui::settings::input::Navigation;

/// Equal in every part, `Any` counting as nothing but itself.
fn same(a: &Vec<Input>, b: &[Input]) -> bool {
    format!("{:?}", a) == format!("{:?}", b)
}

#[test]
fn default_navigation_binds_the_documented_keys() {
    let navigation = Navigation::default();
    assert!(same(&navigation.list_up, &[Input::new_key(Key::Up), Input::new_key(Key::Char('k'))]));
    assert!(same(
        &navigation.list_down,
        &[Input::new_key(Key::Down), Input::new_key(Key::Char('j'))]
    ));
    assert!(same(
        &navigation.list_select,
        &[
            Input::new_key(Key::Right),
            Input::new_key(Key::Char('l')),
            Input::new_key(Key::Enter)
        ]
    ));
    assert!(same(
        &navigation.list_back,
        &[Input::new_key(Key::Left), Input::new_key(Key::Char('h'))]
    ));
    assert!(same(&navigation.cancel, &[Input::new_key(Key::Esc)]));
    assert!(same(&navigation.tab_next, &[Input::new_key(Key::Tab)]));
    assert!(same(
        &navigation.tab_previus,
        &[Input::new_key(Key::BackTab), Input::new(Key::Tab, Modifier::Shift(Side::Any))]
    ));
    assert!(same(&navigation.hide_toggle, &[Input::new_key(Key::Char('H'))]));
    assert!(same(&navigation.item_add, &[Input::new_key(Key::Char('a'))]));
    assert!(same(&navigation.item_set, &[Input::new_key(Key::Char('p'))]));
    assert!(same(&navigation.refresh, &[Input::new_key(Key::Char('R'))]));
}

#[test]
fn default_media_binds_the_documented_keys() {
    let media = Media::default();
    assert!(same(
        &media.playpause,
        &[Input::new_key(Key::Char('c')), Input::new_key(Key::Char(' '))]
    ));
    assert!(same(
        &media.volume_up,
        &[Input::new_key(Key::Char('+')), Input::new_key(Key::Char('='))]
    ));
    assert!(same(&media.volume_down, &[Input::new_key(Key::Char('-'))]));
    assert!(same(&media.fast_forward, &[Input::new_key(Key::Char('.'))]));
    assert!(same(&media.rewind, &[Input::new_key(Key::Char(','))]));
    assert!(same(&media.shuffle, &[Input::new_key(Key::Char('s'))]));
    assert!(same(&media.repeat, &[Input::new_key(Key::Char('r'))]));
}

#[test]
fn default_input_map_holds_both_defaults() {
    let map = InputMap::default();
    assert!(same(&map.navigation.list_up, &Navigation::default().list_up));
    assert!(same(&map.media.playpause, &Media::default().playpause));
}

#[test]
fn pressed_finds_a_binding_that_matches() {
    let bindings = vec![Input::new_key(Key::Up), Input::new_key(Key::Char('k'))];
    assert!(pressed(&bindings, &Input::new_key(Key::Up)));
    assert!(pressed(&bindings, &Input::new_key(Key::Char('k'))));
    assert!(!pressed(&bindings, &Input::new_key(Key::Char('K'))));
    assert!(!pressed(&bindings, &Input::new_key(Key::Down)));
    assert!(!pressed(&bindings, &Input::new(Key::Up, Modifier::Shift(Side::Left))));
    assert!(!pressed(&vec![], &Input::new_key(Key::Up)));
}

#[test]
fn pressed_takes_any_as_a_match_for_everything_of_its_kind() {
    let shift_tab = vec![Input::new(Key::Tab, Modifier::Shift(Side::Any))];
    assert!(pressed(&shift_tab, &Input::new(Key::Tab, Modifier::Shift(Side::Left))));
    assert!(pressed(&shift_tab, &Input::new(Key::Tab, Modifier::Shift(Side::Right))));
    assert!(pressed(&shift_tab, &Input::new(Key::Tab, Modifier::Any)));
    assert!(!pressed(&shift_tab, &Input::new(Key::Tab, Modifier::Control(Side::Left))));
    assert!(!pressed(&shift_tab, &Input::new_key(Key::Tab)));
    assert!(!pressed(&shift_tab, &Input::new(Key::BackTab, Modifier::Shift(Side::Left))));

    let any_key = vec![Input::new(Key::Any, Modifier::None)];
    assert!(pressed(&any_key, &Input::new_key(Key::Char('x'))));
    assert!(pressed(&any_key, &Input::new_key(Key::Func(3))));
    assert!(!pressed(&any_key, &Input::new(Key::Char('x'), Modifier::Alt(Side::Left))));

    let plain = vec![Input::new_key(Key::Enter)];
    assert!(pressed(&plain, &Input::new_key(Key::Any)));
    assert!(pressed(&plain, &Input::new(Key::Enter, Modifier::Any)));
    assert!(!pressed(&plain, &Input::new_key(Key::None)));
}

#[test]
fn pressed_compares_what_a_key_carries() {
    let bindings = vec![
        Input::new_key(Key::Func(5)),
        Input::new_key(Key::Modifier(Modifier::Control(Side::Left))),
    ];
    assert!(pressed(&bindings, &Input::new_key(Key::Func(5))));
    assert!(!pressed(&bindings, &Input::new_key(Key::Func(6))));
    assert!(!pressed(&bindings, &Input::new_key(Key::Char('5'))));
    assert!(pressed(&bindings, &Input::new_key(Key::Modifier(Modifier::Control(Side::Left)))));
    assert!(pressed(&bindings, &Input::new_key(Key::Modifier(Modifier::Control(Side::Any)))));
    assert!(pressed(&bindings, &Input::new_key(Key::Modifier(Modifier::Any))));
    assert!(!pressed(&bindings, &Input::new_key(Key::Modifier(Modifier::Control(Side::Right)))));
    assert!(!pressed(&bindings, &Input::new_key(Key::Modifier(Modifier::Alt(Side::Left)))));
    assert!(!pressed(&bindings, &Input::new_key(Key::Modifier(Modifier::None))));
}

#[test]
fn pressed_agrees_with_the_equality_of_inputs() {
    let keys = [
        Key::Up,
        Key::Char('a'),
        Key::Char('b'),
        Key::Func(1),
        Key::Modifier(Modifier::Shift(Side::Left)),
        Key::Modifier(Modifier::None),
        Key::Any,
        Key::None,
        Key::Tab,
    ];
    let modifiers = [
        Modifier::None,
        Modifier::Any,
        Modifier::Shift(Side::Left),
        Modifier::Shift(Side::Right),
        Modifier::Shift(Side::Any),
        Modifier::Control(Side::Left),
        Modifier::Alt(Side::Any),
        Modifier::Super(Side::Right),
        Modifier::Meta(Side::Left),
        Modifier::Hyper(Side::Left),
    ];
    for bound_key in keys {
        for bound_modifier in modifiers {
            for key in keys {
                for modifier in modifiers {
                    let bound = Input::new(bound_key, bound_modifier);
                    let input = Input::new(key, modifier);
                    assert_eq!(pressed(&vec![bound], &input), bound == input);
                }
            }
        }
    }
}
