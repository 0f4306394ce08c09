use vstd::prelude::*;

use crate::controls::InputEvent;
use crate::text::char_from_digit;

verus! {

/// X11 keysyms of the keys the overlay listens to.
pub const BACKSPACE_KEYSYM: u32 = 0xff08;
pub const RETURN_KEYSYM: u32 = 0xff0d;
pub const ESCAPE_KEYSYM: u32 = 0xff1b;
pub const LEFT_KEYSYM: u32 = 0xff51;
pub const UP_KEYSYM: u32 = 0xff52;
pub const RIGHT_KEYSYM: u32 = 0xff53;
pub const DOWN_KEYSYM: u32 = 0xff54;
pub const PERIOD_KEYSYM: u32 = 0x2e;

/// `k` is the first position of `symbol` in the keymap.
pub open spec fn first_occurrence(keysyms: Seq<u32>, symbol: u32, k: int) -> bool {
    &&& 0 <= k < keysyms.len()
    &&& keysyms[k] == symbol
    &&& forall|j: int| 0 <= j < k ==> keysyms[j] != symbol
}

/// The keymap lists `per` keysyms for each keycode from `first` on; the
/// keycode of a symbol is the one whose list holds its first occurrence, the
/// list number taken modulo 256 as a byte before it is added to `first`.
pub open spec fn keycode_of(keysyms: Seq<u32>, per: u8, first: u8, symbol: u32) -> Option<u8> {
    if keysyms.contains(symbol) {
        let k = choose|k: int| first_occurrence(keysyms, symbol, k);
        Some((first + (k / per as int) % 256) as u8)
    } else {
        None
    }
}

/// Looking `symbol` up computes without dividing by zero or overflowing a keycode.
pub open spec fn keycode_lookup_defined(keysyms: Seq<u32>, per: u8, first: u8, symbol: u32) -> bool {
    &&& per > 0
    &&& forall|k: int|
        first_occurrence(keysyms, symbol, k) ==> first + (k / per as int) % 256 <= 255
}

/// The keycode of the key that produces `symbol`, if any key does.
pub fn keycode_for(keysyms: &Vec<u32>, keysyms_per_keycode: u8, first_keycode: u8, symbol: u32) -> (keycode:
    Option<u8>)
    requires
        keycode_lookup_defined(keysyms@, keysyms_per_keycode, first_keycode, symbol),
    ensures
        keycode == keycode_of(keysyms@, keysyms_per_keycode, first_keycode, symbol),
{
    let mut k: usize = 0;
    while k < keysyms.len()
        invariant
            k <= keysyms@.len(),
            keycode_lookup_defined(keysyms@, keysyms_per_keycode, first_keycode, symbol),
            forall|j: int| 0 <= j < k ==> keysyms@[j] != symbol,
        decreases keysyms@.len() - k,
    {
        if keysyms[k] == symbol {
            assert(first_occurrence(keysyms@, symbol, k as int));
            assert(keysyms@.contains(symbol));
            let ghost chosen = choose|k: int| first_occurrence(keysyms@, symbol, k);
            assert(chosen == k as int) by {
                if chosen < k as int {
                } else if chosen > k as int {
                }
            }
            let index = k / keysyms_per_keycode as usize;
            return Some(first_keycode + (index % 256) as u8);
        }
        k = k + 1;
    }
    assert(!keysyms@.contains(symbol));
    None
}

/// Which key of the overlay's controls the keymap lacks.
#[derive(Clone, Copy, Debug, PartialEq, Eq, Structural)]
pub enum MissingKey {
    RightArrow,
    DownArrow,
    UpArrow,
    LeftArrow,
    Backspace,
    Enter,
    Escape,
    Period,
    Digit,
}

/// The overlay's controls: each keysym and the key press it stands for, in
/// the order they are looked up.
pub open spec fn control_keys() -> Seq<(u32, InputEvent)> {
    seq![
        (RIGHT_KEYSYM, InputEvent::Primary),
        (DOWN_KEYSYM, InputEvent::Down),
        (UP_KEYSYM, InputEvent::Up),
        (LEFT_KEYSYM, InputEvent::Back),
        (BACKSPACE_KEYSYM, InputEvent::Backspace),
        (RETURN_KEYSYM, InputEvent::Confirm),
        (ESCAPE_KEYSYM, InputEvent::Cancel),
        (PERIOD_KEYSYM, InputEvent::Decimal),
    ] + Seq::new(10, |d: int| ((0x30 + d) as u32, InputEvent::Digit((0x30 + d) as char)))
}

/// The key reported missing when entry `i` of `control_keys()` is not in the keymap.
pub open spec fn missing_key_at(i: int) -> MissingKey {
    if i == 0 {
        MissingKey::RightArrow
    } else if i == 1 {
        MissingKey::DownArrow
    } else if i == 2 {
        MissingKey::UpArrow
    } else if i == 3 {
        MissingKey::LeftArrow
    } else if i == 4 {
        MissingKey::Backspace
    } else if i == 5 {
        MissingKey::Enter
    } else if i == 6 {
        MissingKey::Escape
    } else if i == 7 {
        MissingKey::Period
    } else {
        MissingKey::Digit
    }
}

/// Every lookup that building the bindings reaches is defined: lookups go in
/// order and stop at the first key that is missing.
pub open spec fn bindings_defined(keysyms: Seq<u32>, per: u8, first: u8) -> bool {
    forall|i: int|
        0 <= i < control_keys().len() && (forall|j: int|
            0 <= j < i ==> (#[trigger] keycode_of(keysyms, per, first, control_keys()[j].0)) is Some)
            ==> keycode_lookup_defined(keysyms, per, first, #[trigger] control_keys()[i].0)
}

/// The first control key that the keymap lacks, as an index into `control_keys()`.
pub open spec fn first_missing(keysyms: Seq<u32>, per: u8, first: u8, i: int) -> bool {
    &&& 0 <= i < control_keys().len()
    &&& keycode_of(keysyms, per, first, control_keys()[i].0) is None
    &&& forall|j: int|
        0 <= j < i ==> (#[trigger] keycode_of(keysyms, per, first, control_keys()[j].0)) is Some
}

/// The overlay's key bindings and which physical keys are currently held.
pub struct KeyBindings {
    bindings: Vec<(u8, InputEvent)>,
    pressed: Vec<bool>,
}

/// The bindings (keycode and key press) and the held flag of each keycode.
pub struct BindingsView {
    pub bindings: Seq<(u8, InputEvent)>,
    pub pressed: Seq<bool>,
}

impl View for KeyBindings {
    type V = BindingsView;

    closed spec fn view(&self) -> BindingsView {
        BindingsView { bindings: self.bindings@, pressed: self.pressed@ }
    }
}

/// The key press of the first binding for `detail`, if there is one.
pub open spec fn binding_for(bindings: Seq<(u8, InputEvent)>, detail: u32) -> Option<InputEvent>
    decreases bindings.len(),
{
    if bindings.len() == 0 {
        None
    } else if bindings[0].0 as u32 == detail {
        Some(bindings[0].1)
    } else {
        binding_for(bindings.drop_first(), detail)
    }
}

/// Held flags and reported key press after a raw press of keycode `detail`:
/// a bound key is reported once, when it goes down, and not again while held.
pub open spec fn press_step(v: BindingsView, detail: u32) -> (BindingsView, Option<InputEvent>) {
    if detail < 256 && v.pressed.len() == 256 && !v.pressed[detail as int] {
        match binding_for(v.bindings, detail) {
            Some(input) => (
                BindingsView { pressed: v.pressed.update(detail as int, true), ..v },
                Some(input),
            ),
            None => (v, None),
        }
    } else {
        (v, None)
    }
}

/// Held flags after a raw release of keycode `detail`.
pub open spec fn release_step(v: BindingsView, detail: u32) -> BindingsView {
    if detail < 256 && v.pressed.len() == 256 {
        BindingsView { pressed: v.pressed.update(detail as int, false), ..v }
    } else {
        v
    }
}

impl KeyBindings {
    /// Binds the overlay's controls to the keycodes that produce their keysyms in
    /// an X11 keymap (`per` keysyms for each keycode from `first` on), with no key held.
    pub fn from_keymap(keysyms: &Vec<u32>, per: u8, first: u8) -> (bindings: Result<
        KeyBindings,
        MissingKey,
    >)
        requires
            bindings_defined(keysyms@, per, first),
        ensures
            match bindings {
                Ok(b) => {
                    &&& b@.pressed == Seq::new(256, |i: int| false)
                    &&& b@.bindings.len() == control_keys().len()
                    &&& forall|i: int|
                        0 <= i < control_keys().len() ==> Some((#[trigger] b@.bindings[i]).0)
                            == keycode_of(keysyms@, per, first, control_keys()[i].0)
                            && b@.bindings[i].1 == control_keys()[i].1
                },
                Err(missing) => exists|i: int|
                    first_missing(keysyms@, per, first, i) && missing == missing_key_at(i),
            },
    {
        let mut symbols: Vec<(u32, InputEvent)> = Vec::new();
        symbols.push((RIGHT_KEYSYM, InputEvent::Primary));
        symbols.push((DOWN_KEYSYM, InputEvent::Down));
        symbols.push((UP_KEYSYM, InputEvent::Up));
        symbols.push((LEFT_KEYSYM, InputEvent::Back));
        symbols.push((BACKSPACE_KEYSYM, InputEvent::Backspace));
        symbols.push((RETURN_KEYSYM, InputEvent::Confirm));
        symbols.push((ESCAPE_KEYSYM, InputEvent::Cancel));
        symbols.push((PERIOD_KEYSYM, InputEvent::Decimal));
        let mut d: u32 = 0;
        while d < 10
            invariant
                d <= 10,
                symbols@ == control_keys().subrange(0, 8 + d as int),
            decreases 10 - d,
        {
            symbols.push((0x30 + d, InputEvent::Digit(char_from_digit(d))));
            d = d + 1;
        }
        assert(symbols@ == control_keys());
        let mut bindings: Vec<(u8, InputEvent)> = Vec::new();
        let mut i: usize = 0;
        while i < symbols.len()
            invariant
                symbols@ == control_keys(),
                bindings_defined(keysyms@, per, first),
                i <= symbols@.len(),
                bindings@.len() == i,
                forall|j: int|
                    0 <= j < i ==> Some((#[trigger] bindings@[j]).0) == keycode_of(
                        keysyms@,
                        per,
                        first,
                        control_keys()[j].0,
                    ) && bindings@[j].1 == control_keys()[j].1,
            decreases symbols@.len() - i,
        {
            let (symbol, input) = symbols[i];
            assert forall|j: int| 0 <= j < i implies (#[trigger] keycode_of(
                keysyms@,
                per,
                first,
                control_keys()[j].0,
            )) is Some by {
                assert(Some(bindings@[j].0) == keycode_of(keysyms@, per, first, control_keys()[j].0));
            }
            match keycode_for(keysyms, per, first, symbol) {
                Some(keycode) => bindings.push((keycode, input)),
                None => {
                    assert(first_missing(keysyms@, per, first, i as int));
                    return Err(missing_key(i));
                },
            }
            i = i + 1;
        }
        let mut pressed: Vec<bool> = Vec::new();
        let mut n: usize = 0;
        while n < 256
            invariant
                n <= 256,
                pressed@ == Seq::new(n as nat, |i: int| false),
            decreases 256 - n,
        {
            pressed.push(false);
            n = n + 1;
        }
        Ok(KeyBindings { bindings, pressed })
    }

    /// A raw key press of keycode `detail`; returns the key press to report.
    pub fn on_press(&mut self, detail: u32) -> (input: Option<InputEvent>)
        ensures
            (final(self)@, input) == press_step(old(self)@, detail),
    {
        if detail < 256 && self.pressed.len() == 256 && !self.pressed[detail as usize] {
            match self.find(detail) {
                Some(input) => {
                    self.pressed.set(detail as usize, true);
                    Some(input)
                },
                None => None,
            }
        } else {
            None
        }
    }

    /// A raw key release of keycode `detail`.
    pub fn on_release(&mut self, detail: u32)
        ensures
            final(self)@ == release_step(old(self)@, detail),
    {
        if detail < 256 && self.pressed.len() == 256 {
            self.pressed.set(detail as usize, false);
        }
    }

    fn find(&self, detail: u32) -> (input: Option<InputEvent>)
        ensures
            input == binding_for(self@.bindings, detail),
    {
        let mut i: usize = 0;
        assert(self.bindings@.subrange(0, self.bindings@.len() as int) == self.bindings@);
        while i < self.bindings.len()
            invariant
                i <= self.bindings@.len(),
                binding_for(self.bindings@, detail) == binding_for(
                    self.bindings@.subrange(i as int, self.bindings@.len() as int),
                    detail,
                ),
            decreases self.bindings@.len() - i,
        {
            let (keycode, input) = self.bindings[i];
            let ghost rest = self.bindings@.subrange(i as int, self.bindings@.len() as int);
            assert(rest.drop_first() == self.bindings@.subrange(i + 1, self.bindings@.len() as int));
            if keycode as u32 == detail {
                return Some(input);
            }
            i = i + 1;
        }
        None
    }
}

fn missing_key(i: usize) -> (missing: MissingKey)
    ensures
        missing == missing_key_at(i as int),
{
    match i {
        0 => MissingKey::RightArrow,
        1 => MissingKey::DownArrow,
        2 => MissingKey::UpArrow,
        3 => MissingKey::LeftArrow,
        4 => MissingKey::Backspace,
        5 => MissingKey::Enter,
        6 => MissingKey::Escape,
        7 => MissingKey::Period,
        _ => MissingKey::Digit,
    }
}

impl MissingKey {
    /// The error text for a key the keymap lacks.
    pub fn message(self) -> (message: &'static str)
        ensures
            message@ == missing_key_text(self),
    {
        match self {
            MissingKey::RightArrow => "Right arrow key was not found in the X11 keymap",
            MissingKey::DownArrow => "Down arrow key was not found in the X11 keymap",
            MissingKey::UpArrow => "Up arrow key was not found in the X11 keymap",
            MissingKey::LeftArrow => "Left arrow key was not found in the X11 keymap",
            MissingKey::Backspace => "Backspace key was not found in the X11 keymap",
            MissingKey::Enter => "Enter key was not found in the X11 keymap",
            MissingKey::Escape => "Escape key was not found in the X11 keymap",
            MissingKey::Period => "period key was not found in the X11 keymap",
            MissingKey::Digit => "digit key was not found in the X11 keymap",
        }
    }
}

pub open spec fn missing_key_text(missing: MissingKey) -> Seq<char> {
    match missing {
        MissingKey::RightArrow => "Right arrow key was not found in the X11 keymap"@,
        MissingKey::DownArrow => "Down arrow key was not found in the X11 keymap"@,
        MissingKey::UpArrow => "Up arrow key was not found in the X11 keymap"@,
        MissingKey::LeftArrow => "Left arrow key was not found in the X11 keymap"@,
        MissingKey::Backspace => "Backspace key was not found in the X11 keymap"@,
        MissingKey::Enter => "Enter key was not found in the X11 keymap"@,
        MissingKey::Escape => "Escape key was not found in the X11 keymap"@,
        MissingKey::Period => "period key was not found in the X11 keymap"@,
        MissingKey::Digit => "digit key was not found in the X11 keymap"@,
    }
}

/// A bound key is reported once when it goes down: pressing it again (as key
/// repeat does) reports nothing until it has been released, after which it is
/// reported again.
pub proof fn lemma_held_key_is_reported_once(v: BindingsView, detail: u32)
    requires
        v.pressed.len() == 256,
        detail < 256,
        !v.pressed[detail as int],
    ensures
        press_step(v, detail).1 == binding_for(v.bindings, detail),
        press_step(press_step(v, detail).0, detail).1 is None,
        press_step(release_step(press_step(v, detail).0, detail), detail).1 == binding_for(
            v.bindings,
            detail,
        ),
{
    let after = press_step(v, detail).0;
    if binding_for(v.bindings, detail) is Some {
        assert(after.pressed[detail as int]);
        let released = release_step(after, detail);
        assert(!released.pressed[detail as int]);
        assert(released.bindings == v.bindings);
    }
}

/// Each control keysym is bound to the key press it names: Right selects, Down
/// and Up move the highlight, Left goes back, BackSpace erases, Return confirms,
/// Escape cancels, the period types the decimal point and each digit key types
/// its digit.
pub proof fn lemma_keysyms_bind_the_inputs_they_name()
    ensures
        control_keys().len() == 18,
        control_keys()[0] == (0xff53u32, InputEvent::Primary),
        control_keys()[1] == (0xff54u32, InputEvent::Down),
        control_keys()[2] == (0xff52u32, InputEvent::Up),
        control_keys()[3] == (0xff51u32, InputEvent::Back),
        control_keys()[4] == (0xff08u32, InputEvent::Backspace),
        control_keys()[5] == (0xff0du32, InputEvent::Confirm),
        control_keys()[6] == (0xff1bu32, InputEvent::Cancel),
        control_keys()[7] == (0x2eu32, InputEvent::Decimal),
        control_keys()[8] == (0x30u32, InputEvent::Digit('0')),
        control_keys()[9] == (0x31u32, InputEvent::Digit('1')),
        control_keys()[10] == (0x32u32, InputEvent::Digit('2')),
        control_keys()[11] == (0x33u32, InputEvent::Digit('3')),
        control_keys()[12] == (0x34u32, InputEvent::Digit('4')),
        control_keys()[13] == (0x35u32, InputEvent::Digit('5')),
        control_keys()[14] == (0x36u32, InputEvent::Digit('6')),
        control_keys()[15] == (0x37u32, InputEvent::Digit('7')),
        control_keys()[16] == (0x38u32, InputEvent::Digit('8')),
        control_keys()[17] == (0x39u32, InputEvent::Digit('9')),
{
    assert(control_keys()[8] == ((0x30 + 0) as u32, InputEvent::Digit((0x30 + 0) as char)));
    assert(control_keys()[9] == ((0x30 + 1) as u32, InputEvent::Digit((0x30 + 1) as char)));
    assert(control_keys()[10] == ((0x30 + 2) as u32, InputEvent::Digit((0x30 + 2) as char)));
    assert(control_keys()[11] == ((0x30 + 3) as u32, InputEvent::Digit((0x30 + 3) as char)));
    assert(control_keys()[12] == ((0x30 + 4) as u32, InputEvent::Digit((0x30 + 4) as char)));
    assert(control_keys()[13] == ((0x30 + 5) as u32, InputEvent::Digit((0x30 + 5) as char)));
    assert(control_keys()[14] == ((0x30 + 6) as u32, InputEvent::Digit((0x30 + 6) as char)));
    assert(control_keys()[15] == ((0x30 + 7) as u32, InputEvent::Digit((0x30 + 7) as char)));
    assert(control_keys()[16] == ((0x30 + 8) as u32, InputEvent::Digit((0x30 + 8) as char)));
    assert(control_keys()[17] == ((0x30 + 9) as u32, InputEvent::Digit((0x30 + 9) as char)));
}

proof fn lemma_first_binding_found(bindings: Seq<(u8, InputEvent)>, detail: u32, i: int)
    requires
        0 <= i < bindings.len(),
        bindings[i].0 as u32 == detail,
        forall|j: int| 0 <= j < i ==> bindings[j].0 as u32 != detail,
    ensures
        binding_for(bindings, detail) == Some(bindings[i].1),
    decreases i,
{
    if i > 0 {
        let rest = bindings.drop_first();
        assert forall|j: int| 0 <= j < i - 1 implies rest[j].0 as u32 != detail by {
            assert(rest[j] == bindings[j + 1]);
        }
        lemma_first_binding_found(rest, detail, i - 1);
    }
}

/// With bindings built from a keymap as `from_keymap` builds them, pressing the
/// key that produces control keysym `i` reports the key press that keysym is
/// bound to, unless an earlier control keysym sits on the same key.
pub proof fn lemma_pressed_key_reports_its_binding(
    keysyms: Seq<u32>,
    per: u8,
    first: u8,
    v: BindingsView,
    i: int,
    keycode: u8,
)
    requires
        v.pressed.len() == 256,
        v.bindings.len() == control_keys().len(),
        forall|j: int|
            0 <= j < control_keys().len() ==> Some((#[trigger] v.bindings[j]).0) == keycode_of(
                keysyms,
                per,
                first,
                control_keys()[j].0,
            ) && v.bindings[j].1 == control_keys()[j].1,
        0 <= i < control_keys().len(),
        keycode_of(keysyms, per, first, control_keys()[i].0) == Some(keycode),
        forall|j: int|
            0 <= j < i ==> keycode_of(keysyms, per, first, #[trigger] control_keys()[j].0) != Some(
                keycode,
            ),
        !v.pressed[keycode as int],
    ensures
        press_step(v, keycode as u32).1 == Some(control_keys()[i].1),
{
    assert forall|j: int| 0 <= j < i implies v.bindings[j].0 as u32 != keycode as u32 by {
        assert(Some(v.bindings[j].0) == keycode_of(keysyms, per, first, control_keys()[j].0));
    }
    assert(Some(v.bindings[i].0) == keycode_of(keysyms, per, first, control_keys()[i].0));
    lemma_first_binding_found(v.bindings, keycode as u32, i);
}

} // verus!
