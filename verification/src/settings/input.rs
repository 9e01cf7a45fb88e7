//! The key bindings.
use ratatui_eventInput::Input;
use ratatui_eventInput::Key;
use ratatui_eventInput::Modifier;
use ratatui_eventInput::Side;
use vstd::prelude::*;

verus! {

/// `ratatui_eventInput::Side`, with the variants that the crate gives it.
#[verifier::external_type_specification]
pub struct ExSide(Side);

/// `ratatui_eventInput::Modifier`, with the variants that the crate gives
/// it.
#[verifier::external_type_specification]
pub struct ExModifier(Modifier);

/// `ratatui_eventInput::Key`, with the variants that the crate gives it.
#[verifier::external_type_specification]
pub struct ExKey(Key);

/// `ratatui_eventInput::Input`: a key and a modifier.
#[verifier::external_type_specification]
pub struct ExInput(Input);

/// Whether a side that is bound matches one that was pressed: `Any` on
/// either hand matches every side.
pub open spec fn sides_match(bound: Side, pressed: Side) -> bool {
    bound is Any || pressed is Any || bound == pressed
}

/// Whether a modifier that is bound matches one that was pressed: `Any` on
/// either hand matches every modifier; else both are the same modifier, on
/// sides that match.
pub open spec fn modifiers_match(bound: Modifier, pressed: Modifier) -> bool {
    match bound {
        Modifier::Any => true,
        Modifier::Shift(side) => match pressed {
            Modifier::Shift(other) => sides_match(side, other),
            Modifier::Any => true,
            _ => false,
        },
        Modifier::Control(side) => match pressed {
            Modifier::Control(other) => sides_match(side, other),
            Modifier::Any => true,
            _ => false,
        },
        Modifier::Alt(side) => match pressed {
            Modifier::Alt(other) => sides_match(side, other),
            Modifier::Any => true,
            _ => false,
        },
        Modifier::Super(side) => match pressed {
            Modifier::Super(other) => sides_match(side, other),
            Modifier::Any => true,
            _ => false,
        },
        Modifier::Meta(side) => match pressed {
            Modifier::Meta(other) => sides_match(side, other),
            Modifier::Any => true,
            _ => false,
        },
        Modifier::Hyper(side) => match pressed {
            Modifier::Hyper(other) => sides_match(side, other),
            Modifier::Any => true,
            _ => false,
        },
        Modifier::None => pressed is Any || pressed is None,
    }
}

/// Whether a key that is bound matches one that was pressed: `Any` on either
/// hand matches every key; else both are the same key, with the same
/// character or number, or with modifiers that match.
pub open spec fn keys_match(bound: Key, pressed: Key) -> bool {
    match bound {
        Key::Any => true,
        Key::Char(c) => match pressed {
            Key::Char(other) => c == other,
            Key::Any => true,
            _ => false,
        },
        Key::Func(n) => match pressed {
            Key::Func(other) => n == other,
            Key::Any => true,
            _ => false,
        },
        Key::Modifier(modifier) => match pressed {
            Key::Modifier(other) => modifiers_match(modifier, other),
            Key::Any => true,
            _ => false,
        },
        _ => pressed is Any || bound == pressed,
    }
}

/// Whether an input that is bound matches one that was made: in the key and
/// in the modifier.
pub open spec fn inputs_match(bound: Input, pressed: Input) -> bool {
    keys_match(bound.key, pressed.key) && modifiers_match(bound.modifier, pressed.modifier)
}

/// Whether one of `bindings` matches `input`.
pub open spec fn is_bound(bindings: Seq<Input>, input: Input) -> bool {
    exists|i: int| 0 <= i < bindings.len() && inputs_match(#[trigger] bindings[i], input)
}

/// The input of `key` alone, without a modifier.
pub open spec fn plain(key: Key) -> Input {
    Input { key, modifier: Modifier::None }
}

/// `ratatui_eventInput`'s `==` on `Input`: the keys are equal and the
/// modifiers are equal, in the crate's own sense of equal, in which `Any`
/// equals everything of its kind.
#[verifier::external_body]
pub(crate) fn input_eq(bound: &Input, pressed: &Input) -> (equal: bool)
    ensures
        equal == inputs_match(*bound, *pressed),
{
    bound == pressed
}

/// `Input::new_key`: the input of the key, with the modifier `None`.
pub assume_specification[ Input::new_key ](key: Key) -> (input: Input)
    ensures
        input == plain(key),
;

/// `Input::new`: the input of the key with the modifier.
pub assume_specification[ Input::new ](key: Key, modifier: Modifier) -> (input: Input)
    ensures
        input == (Input { key, modifier }),
;

/// `Input::keys`: for each key, in order, its input with the modifier
/// `None`.
pub assume_specification[ Input::keys ](keys: &[Key]) -> (inputs: Vec<Input>)
    ensures
        inputs@ == keys@.map_values(|key: Key| plain(key)),
;

/// Whether one of `bindings` matches `input`.
pub fn pressed(bindings: &Vec<Input>, input: &Input) -> (bound: bool)
    ensures
        bound == is_bound(bindings@, *input),
{
    let mut i: usize = 0;
    while i < bindings.len()
        invariant
            i <= bindings.len(),
            forall|k: int| 0 <= k < i ==> !inputs_match(#[trigger] bindings@[k], *input),
        decreases bindings.len() - i,
    {
        if input_eq(&bindings[i], input) {
            return true;
        }
        i += 1;
    }
    false
}

/// The keys for the player.
#[derive(Debug, Clone)]
pub struct Media {
    pub playpause: Vec<Input>,
    pub volume_up: Vec<Input>,
    pub volume_down: Vec<Input>,
    pub fast_forward: Vec<Input>,
    pub rewind: Vec<Input>,
    /// Go to the next shuffle mode
    pub shuffle: Vec<Input>,
    /// Switch repeat on or off
    pub repeat: Vec<Input>,
}

impl Media {
    /// The bindings that `default` gives.
    pub open spec fn is_default(self) -> bool {
        &&& self.playpause@ == seq![plain(Key::Char('c')), plain(Key::Char(' '))]
        &&& self.volume_up@ == seq![plain(Key::Char('+')), plain(Key::Char('='))]
        &&& self.volume_down@ == seq![plain(Key::Char('-'))]
        &&& self.fast_forward@ == seq![plain(Key::Char('.'))]
        &&& self.rewind@ == seq![plain(Key::Char(','))]
        &&& self.shuffle@ == seq![plain(Key::Char('s'))]
        &&& self.repeat@ == seq![plain(Key::Char('r'))]
    }
}

impl Default for Media {
    fn default() -> (media: Self)
        ensures
            media.is_default(),
    {
        let media = Self {
            playpause: Input::keys(&[Key::Char('c'), Key::Char(' ')]),
            volume_up: Input::keys(&[Key::Char('+'), Key::Char('=')]),
            volume_down: Input::keys(&[Key::Char('-')]),
            fast_forward: Input::keys(&[Key::Char('.')]),
            rewind: Input::keys(&[Key::Char(',')]),
            shuffle: Input::keys(&[Key::Char('s')]),
            repeat: Input::keys(&[Key::Char('r')]),
        };
        assert(media.playpause@ =~= seq![plain(Key::Char('c')), plain(Key::Char(' '))]);
        assert(media.volume_up@ =~= seq![plain(Key::Char('+')), plain(Key::Char('='))]);
        assert(media.volume_down@ =~= seq![plain(Key::Char('-'))]);
        assert(media.fast_forward@ =~= seq![plain(Key::Char('.'))]);
        assert(media.rewind@ =~= seq![plain(Key::Char(','))]);
        assert(media.shuffle@ =~= seq![plain(Key::Char('s'))]);
        assert(media.repeat@ =~= seq![plain(Key::Char('r'))]);
        media
    }
}

/// The keys for moving around.
#[derive(Debug, Clone)]
pub struct Navigation {
    /// Go one item up a list
    pub list_up: Vec<Input>,
    /// Go one item down a list
    pub list_down: Vec<Input>,
    /// Select/interact with the item selected in a list
    pub list_select: Vec<Input>,
    /// Go back to previous list
    pub list_back: Vec<Input>,
    /// Cancel the current action
    pub cancel: Vec<Input>,
    /// Next tab
    pub tab_next: Vec<Input>,
    /// Previous tab
    pub tab_previus: Vec<Input>,
    /// (un)Hide hidden files
    pub hide_toggle: Vec<Input>,
    /// Add an item to the queue or library depending on the context
    pub item_add: Vec<Input>,
    /// Select an individual item, depends on the context what it does.
    pub item_set: Vec<Input>,
    /// Read the lists anew
    pub refresh: Vec<Input>,
}

impl Navigation {
    /// The bindings that `default` gives.
    pub open spec fn is_default(self) -> bool {
        &&& self.list_up@ == seq![plain(Key::Up), plain(Key::Char('k'))]
        &&& self.list_down@ == seq![plain(Key::Down), plain(Key::Char('j'))]
        &&& self.list_select@ == seq![plain(Key::Right), plain(Key::Char('l')), plain(Key::Enter)]
        &&& self.list_back@ == seq![plain(Key::Left), plain(Key::Char('h'))]
        &&& self.cancel@ == seq![plain(Key::Esc)]
        &&& self.tab_next@ == seq![plain(Key::Tab)]
        &&& self.tab_previus@ == seq![
            plain(Key::BackTab),
            Input { key: Key::Tab, modifier: Modifier::Shift(Side::Any) },
        ]
        &&& self.hide_toggle@ == seq![plain(Key::Char('H'))]
        &&& self.item_add@ == seq![plain(Key::Char('a'))]
        &&& self.item_set@ == seq![plain(Key::Char('p'))]
        &&& self.refresh@ == seq![plain(Key::Char('R'))]
    }
}

impl Default for Navigation {
    fn default() -> (navigation: Self)
        ensures
            navigation.is_default(),
    {
        let mut tab_previus: Vec<Input> = Vec::new();
        tab_previus.push(Input::new_key(Key::BackTab));
        tab_previus.push(Input::new(Key::Tab, Modifier::Shift(Side::Any)));
        let navigation = Self {
            list_up: Input::keys(&[Key::Up, Key::Char('k')]),
            list_down: Input::keys(&[Key::Down, Key::Char('j')]),
            list_select: Input::keys(&[Key::Right, Key::Char('l'), Key::Enter]),
            list_back: Input::keys(&[Key::Left, Key::Char('h')]),
            cancel: Input::keys(&[Key::Esc]),
            tab_next: Input::keys(&[Key::Tab]),
            tab_previus,
            hide_toggle: Input::keys(&[Key::Char('H')]),
            item_add: Input::keys(&[Key::Char('a')]),
            item_set: Input::keys(&[Key::Char('p')]),
            refresh: Input::keys(&[Key::Char('R')]),
        };
        assert(navigation.list_up@ =~= seq![plain(Key::Up), plain(Key::Char('k'))]);
        assert(navigation.list_down@ =~= seq![plain(Key::Down), plain(Key::Char('j'))]);
        assert(navigation.list_select@ =~= seq![
            plain(Key::Right),
            plain(Key::Char('l')),
            plain(Key::Enter),
        ]);
        assert(navigation.list_back@ =~= seq![plain(Key::Left), plain(Key::Char('h'))]);
        assert(navigation.cancel@ =~= seq![plain(Key::Esc)]);
        assert(navigation.tab_next@ =~= seq![plain(Key::Tab)]);
        assert(navigation.tab_previus@ =~= seq![
            plain(Key::BackTab),
            Input { key: Key::Tab, modifier: Modifier::Shift(Side::Any) },
        ]);
        assert(navigation.hide_toggle@ =~= seq![plain(Key::Char('H'))]);
        assert(navigation.item_add@ =~= seq![plain(Key::Char('a'))]);
        assert(navigation.item_set@ =~= seq![plain(Key::Char('p'))]);
        assert(navigation.refresh@ =~= seq![plain(Key::Char('R'))]);
        navigation
    }
}

/// All key bindings.
#[derive(Debug, Clone)]
pub struct InputMap {
    pub navigation: Navigation,
    pub media: Media,
}

impl Default for InputMap {
    fn default() -> (map: Self)
        ensures
            map.navigation.is_default(),
            map.media.is_default(),
    {
        InputMap { navigation: Navigation::default(), media: Media::default() }
    }
}

/// A key without a modifier is bound where its plain input is among the
/// bindings, and a binding of a plain key matches only that key, or `Any`,
/// without a modifier, or with `Any`.
pub proof fn lemma_plain_binding(key: Key, input: Input)
    requires
        !(key is Any),
        !(key is Modifier),
    ensures
        inputs_match(plain(key), input) <==> (input.key == key || input.key is Any) && (
        input.modifier is None || input.modifier is Any),
{
}

} // verus!
