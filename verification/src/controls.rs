use vstd::prelude::*;

use crate::locations::LocationKind;
use crate::menu::{
    after_back, after_primary, moved_selection, HudMode, MenuEffect, MenuPage, MenuState,
};
use crate::text::{contains_char, pop_char, push_char};
use vstd::utf8::{encode_utf8, is_ascii_chars};

verus! {

/// A key press that the overlay reacts to.
#[derive(Clone, Copy, Debug, PartialEq, Eq, Structural)]
pub enum InputEvent {
    Primary,
    Up,
    Down,
    Back,
    Digit(char),
    Decimal,
    Backspace,
    Confirm,
    Cancel,
}

/// The two numeric entry forms of the menu.
#[derive(Clone, Copy, Debug, PartialEq, Eq, Structural)]
pub enum EntryKind {
    Fuel,
    Odometer,
}

/// The notice an entry form shows under its text.
#[derive(Clone, Copy, Debug, PartialEq, Eq, Structural)]
pub enum EntryNotice {
    WaitingForTelemetry,
    InvalidValue,
    SaveFailed,
}

/// How a submitted entry ended, as decided where its text is parsed and saved.
#[derive(Clone, Copy, Debug, PartialEq, Eq, Structural)]
pub enum SubmitOutcome {
    Saved,
    Invalid,
    SaveFailed,
}

/// What the overlay has to carry out after a key press.
#[derive(Clone, Copy, Debug, PartialEq, Eq, Structural)]
pub enum ControlAction {
    Nothing,
    ReloadOverlay,
    ToggleUsage(i32),
    SubmitOdometer(i32),
    SubmitFuel(i32),
    ResetSession,
}

/// Longest text, in UTF-8 bytes, below which an entry form still accepts characters.
pub open spec fn entry_limit(kind: EntryKind) -> nat {
    match kind {
        EntryKind::Fuel => 5,
        EntryKind::Odometer => 10,
    }
}

/// Text of an entry form after an editing key.
pub open spec fn edited_text(kind: EntryKind, text: Seq<char>, input: InputEvent) -> Seq<char> {
    match input {
        InputEvent::Digit(digit) => if encode_utf8(text).len() < entry_limit(kind) {
            text.push(digit)
        } else {
            text
        },
        InputEvent::Decimal => if !text.contains('.') && encode_utf8(text).len() < entry_limit(
            kind,
        ) {
            text.push('.')
        } else {
            text
        },
        InputEvent::Backspace => if text.len() > 0 {
            text.drop_last()
        } else {
            text
        },
        _ => text,
    }
}

/// The HUD mode that follows `mode` when the modes are cycled.
pub open spec fn next_hud_mode(mode: HudMode) -> HudMode {
    match mode {
        HudMode::Life => HudMode::Drive,
        HudMode::Drive => HudMode::Minimal,
        HudMode::Minimal => HudMode::Life,
    }
}

/// How long the main and the navigation menu stay open without a key press.
pub const MENU_TIMEOUT_MS: u64 = 4000;

/// The menu on `page` closes after `idle_ms` milliseconds without a key press.
pub open spec fn menu_expires(page: MenuPage, idle_ms: u64) -> bool {
    (page == MenuPage::Main || page == MenuPage::Navigation) && idle_ms >= MENU_TIMEOUT_MS
}

/// Contents of one entry form.
pub struct EntryView {
    pub text: Seq<char>,
    pub notice: Option<EntryNotice>,
}

/// Everything the overlay's key handling keeps between key presses.
pub struct ControlsView {
    pub page: MenuPage,
    pub selected: usize,
    pub odometer: EntryView,
    pub fuel: EntryView,
    pub navigation_target: Option<LocationKind>,
    pub hud_mode: HudMode,
}

impl ControlsView {
    pub open spec fn entry(self, kind: EntryKind) -> EntryView {
        match kind {
            EntryKind::Fuel => self.fuel,
            EntryKind::Odometer => self.odometer,
        }
    }

    pub open spec fn with_entry(self, kind: EntryKind, entry: EntryView) -> ControlsView {
        match kind {
            EntryKind::Fuel => ControlsView { fuel: entry, ..self },
            EntryKind::Odometer => ControlsView { odometer: entry, ..self },
        }
    }

    pub open spec fn with_menu(self, page: MenuPage, selected: usize) -> ControlsView {
        ControlsView { page, selected, ..self }
    }
}

/// The form that is empty and shows no notice.
pub open spec fn blank_entry() -> EntryView {
    EntryView { text: Seq::empty(), notice: None }
}

/// The action by which an entry form hands its text over for saving.
pub open spec fn submit_action(kind: EntryKind, car: i32) -> ControlAction {
    match kind {
        EntryKind::Fuel => ControlAction::SubmitFuel(car),
        EntryKind::Odometer => ControlAction::SubmitOdometer(car),
    }
}

/// A key press while an entry form is open.
pub open spec fn entry_step(
    v: ControlsView,
    kind: EntryKind,
    input: InputEvent,
    car: Option<i32>,
) -> (ControlsView, ControlAction) {
    let entry = v.entry(kind);
    match input {
        InputEvent::Digit(_) | InputEvent::Decimal | InputEvent::Backspace => (
            v.with_entry(
                kind,
                EntryView { text: edited_text(kind, entry.text, input), notice: None },
            ),
            ControlAction::Nothing,
        ),
        InputEvent::Primary | InputEvent::Confirm => match car {
            Some(car) => (v, submit_action(kind, car)),
            None => (
                v.with_entry(
                    kind,
                    EntryView { text: entry.text, notice: Some(EntryNotice::WaitingForTelemetry) },
                ),
                ControlAction::Nothing,
            ),
        },
        InputEvent::Back | InputEvent::Cancel => (
            v.with_entry(kind, blank_entry()).with_menu(
                after_back(v.page, v.selected).0,
                after_back(v.page, v.selected).1,
            ),
            ControlAction::Nothing,
        ),
        InputEvent::Up | InputEvent::Down => (v, ControlAction::Nothing),
    }
}

/// The state change and action that a menu row's effect brings.
pub open spec fn effect_step(w: ControlsView, effect: MenuEffect, car: Option<i32>) -> (
    ControlsView,
    ControlAction,
) {
    match effect {
        MenuEffect::Nothing => (w, ControlAction::Nothing),
        MenuEffect::ReloadOverlay => (w, ControlAction::ReloadOverlay),
        MenuEffect::ToggleUsage => match car {
            Some(car) => (w, ControlAction::ToggleUsage(car)),
            None => (w, ControlAction::Nothing),
        },
        MenuEffect::OpenOdometerInput => (
            w.with_entry(EntryKind::Odometer, blank_entry()),
            ControlAction::Nothing,
        ),
        MenuEffect::OpenFuelInput => (w.with_entry(EntryKind::Fuel, blank_entry()), ControlAction::Nothing),
        MenuEffect::SetNavigation(target) => (
            ControlsView { navigation_target: target, ..w },
            ControlAction::Nothing,
        ),
        MenuEffect::CycleHudMode => (
            ControlsView { hud_mode: next_hud_mode(w.hud_mode), ..w },
            ControlAction::Nothing,
        ),
        MenuEffect::ResetSession => (w, ControlAction::ResetSession),
    }
}

/// A key press while no entry form is open.
pub open spec fn menu_step(v: ControlsView, input: InputEvent, car: Option<i32>) -> (
    ControlsView,
    ControlAction,
) {
    match input {
        InputEvent::Up => (
            v.with_menu(v.page, moved_selection(v.page, v.selected, -1)),
            ControlAction::Nothing,
        ),
        InputEvent::Down => (
            v.with_menu(v.page, moved_selection(v.page, v.selected, 1)),
            ControlAction::Nothing,
        ),
        InputEvent::Back | InputEvent::Cancel => (
            v.with_menu(after_back(v.page, v.selected).0, after_back(v.page, v.selected).1),
            ControlAction::Nothing,
        ),
        InputEvent::Primary | InputEvent::Confirm => {
            let outcome = after_primary(v.page, v.selected);
            effect_step(v.with_menu(outcome.0, outcome.1), outcome.2, car)
        },
        InputEvent::Digit(_) | InputEvent::Decimal | InputEvent::Backspace => (
            v,
            ControlAction::Nothing,
        ),
    }
}

/// State and action after one key press; `car` is the car whose telemetry is live, if any.
pub open spec fn control_step(v: ControlsView, input: InputEvent, car: Option<i32>) -> (
    ControlsView,
    ControlAction,
) {
    if v.page == MenuPage::FuelInput {
        entry_step(v, EntryKind::Fuel, input, car)
    } else if v.page == MenuPage::OdometerInput {
        entry_step(v, EntryKind::Odometer, input, car)
    } else {
        menu_step(v, input, car)
    }
}

/// State after a submitted entry form was parsed and, if valid, saved.
pub open spec fn after_submission(v: ControlsView, kind: EntryKind, outcome: SubmitOutcome) -> ControlsView {
    let entry = v.entry(kind);
    match outcome {
        SubmitOutcome::Saved => v.with_entry(kind, EntryView { text: entry.text, notice: None }).with_menu(
            MenuPage::Closed,
            v.selected,
        ),
        SubmitOutcome::Invalid => v.with_entry(
            kind,
            EntryView { text: entry.text, notice: Some(EntryNotice::InvalidValue) },
        ),
        SubmitOutcome::SaveFailed => v.with_entry(
            kind,
            EntryView { text: entry.text, notice: Some(EntryNotice::SaveFailed) },
        ),
    }
}

/// The sentence shown for a notice.
pub open spec fn notice_text(kind: EntryKind, notice: EntryNotice) -> Seq<char> {
    match notice {
        EntryNotice::WaitingForTelemetry => "Waiting for vehicle telemetry."@,
        EntryNotice::InvalidValue => match kind {
            EntryKind::Fuel => "Enter a percentage from 0 to 100."@,
            EntryKind::Odometer => "Enter a valid mileage."@,
        },
        EntryNotice::SaveFailed => "Could not save. Press Enter to retry."@,
    }
}

pub fn notice_message(kind: EntryKind, notice: EntryNotice) -> (message: &'static str)
    ensures
        message@ == notice_text(kind, notice),
{
    match notice {
        EntryNotice::WaitingForTelemetry => "Waiting for vehicle telemetry.",
        EntryNotice::InvalidValue => match kind {
            EntryKind::Fuel => "Enter a percentage from 0 to 100.",
            EntryKind::Odometer => "Enter a valid mileage.",
        },
        EntryNotice::SaveFailed => "Could not save. Press Enter to retry.",
    }
}

/// One numeric entry form: the text typed so far and the notice under it.
pub struct NumberEntry {
    text: String,
    notice: Option<EntryNotice>,
}

impl View for NumberEntry {
    type V = EntryView;

    closed spec fn view(&self) -> EntryView {
        EntryView { text: self.text@, notice: self.notice }
    }
}

impl NumberEntry {
    fn new() -> (entry: Self)
        ensures
            entry@ == blank_entry(),
    {
        NumberEntry { text: String::new(), notice: None }
    }

    pub fn text(&self) -> (text: &str)
        ensures
            text@ == self@.text,
    {
        self.text.as_str()
    }

    pub fn notice(&self) -> (notice: Option<EntryNotice>)
        ensures
            notice == self@.notice,
    {
        self.notice
    }

    fn clear(&mut self)
        ensures
            final(self)@ == blank_entry(),
    {
        self.text = String::new();
        self.notice = None;
    }

    fn set_notice(&mut self, notice: Option<EntryNotice>)
        ensures
            final(self)@ == (EntryView { text: old(self)@.text, notice }),
    {
        self.notice = notice;
    }

    fn edit(&mut self, kind: EntryKind, input: InputEvent)
        requires
            input is Digit || input is Decimal || input is Backspace,
        ensures
            final(self)@ == (EntryView {
                text: edited_text(kind, old(self)@.text, input),
                notice: None,
            }),
    {
        self.notice = None;
        let limit: usize = match kind {
            EntryKind::Fuel => 5,
            EntryKind::Odometer => 10,
        };
        match input {
            InputEvent::Digit(digit) => {
                if self.text.as_str().as_bytes().len() < limit {
                    push_char(&mut self.text, digit);
                }
            },
            InputEvent::Decimal => {
                if !contains_char(self.text.as_str(), '.') && self.text.as_str().as_bytes().len() < limit {
                    push_char(&mut self.text, '.');
                }
            },
            _ => {
                pop_char(&mut self.text);
            },
        }
    }
}

/// The overlay's key handling: the menu, the two entry forms, the navigation
/// target and the HUD mode.
pub struct OverlayControls {
    menu: MenuState,
    odometer: NumberEntry,
    fuel: NumberEntry,
    navigation_target: Option<LocationKind>,
    hud_mode: HudMode,
}

impl View for OverlayControls {
    type V = ControlsView;

    closed spec fn view(&self) -> ControlsView {
        ControlsView {
            page: self.menu.current_page(),
            selected: self.menu.cursor(),
            odometer: self.odometer@,
            fuel: self.fuel@,
            navigation_target: self.navigation_target,
            hud_mode: self.hud_mode,
        }
    }
}

impl OverlayControls {
    /// Menu closed, forms empty, no navigation target, the default HUD mode.
    pub fn new() -> (controls: Self)
        ensures
            controls@ == (ControlsView {
                page: MenuPage::Closed,
                selected: 0,
                odometer: blank_entry(),
                fuel: blank_entry(),
                navigation_target: None,
                hud_mode: HudMode::Life,
            }),
    {
        OverlayControls {
            menu: MenuState::default(),
            odometer: NumberEntry::new(),
            fuel: NumberEntry::new(),
            navigation_target: None,
            hud_mode: HudMode::Life,
        }
    }

    pub fn menu(&self) -> (menu: &MenuState)
        ensures
            menu.current_page() == self@.page,
            menu.cursor() == self@.selected,
    {
        &self.menu
    }

    pub fn odometer(&self) -> (entry: &NumberEntry)
        ensures
            entry@ == self@.odometer,
    {
        &self.odometer
    }

    pub fn fuel(&self) -> (entry: &NumberEntry)
        ensures
            entry@ == self@.fuel,
    {
        &self.fuel
    }

    pub fn navigation_target(&self) -> (target: Option<LocationKind>)
        ensures
            target == self@.navigation_target,
    {
        self.navigation_target
    }

    pub fn hud_mode(&self) -> (mode: HudMode)
        ensures
            mode == self@.hud_mode,
    {
        self.hud_mode
    }

    /// Closes the main or the navigation menu once no key has been pressed for
    /// `idle_ms` milliseconds, at least `MENU_TIMEOUT_MS`; the entry forms and
    /// the vehicle card stay open until they are dismissed.
    pub fn expire_menu(&mut self, idle_ms: u64)
        ensures
            final(self)@ == if menu_expires(old(self)@.page, idle_ms) {
                old(self)@.with_menu(MenuPage::Closed, old(self)@.selected)
            } else {
                old(self)@
            },
    {
        let page = self.menu.page();
        if (page == MenuPage::Main || page == MenuPage::Navigation) && idle_ms >= MENU_TIMEOUT_MS {
            self.menu.close();
        }
    }

    /// Closes the menu, as when the vehicle card has nothing to show.
    pub fn close_menu(&mut self)
        ensures
            final(self)@ == old(self)@.with_menu(MenuPage::Closed, old(self)@.selected),
    {
        self.menu.close();
    }

    /// Drops the navigation target, as when it has been reached.
    pub fn clear_navigation(&mut self)
        ensures
            final(self)@ == (ControlsView { navigation_target: None, ..old(self)@ }),
    {
        self.navigation_target = None;
    }

    /// Handles one key press; `car` is the car whose telemetry is live, if any.
    pub fn handle(&mut self, input: InputEvent, car: Option<i32>) -> (action: ControlAction)
        ensures
            (final(self)@, action) == control_step(old(self)@, input, car),
    {
        let page = self.menu.page();
        if page == MenuPage::FuelInput || page == MenuPage::OdometerInput {
            let kind = if page == MenuPage::FuelInput {
                EntryKind::Fuel
            } else {
                EntryKind::Odometer
            };
            return self.handle_entry(kind, input, car);
        }
        match input {
            InputEvent::Up => {
                self.menu.up();
                ControlAction::Nothing
            },
            InputEvent::Down => {
                self.menu.down();
                ControlAction::Nothing
            },
            InputEvent::Back | InputEvent::Cancel => {
                self.menu.back();
                ControlAction::Nothing
            },
            InputEvent::Primary | InputEvent::Confirm => {
                let effect = self.menu.primary();
                self.apply_effect(effect, car)
            },
            InputEvent::Digit(_) | InputEvent::Decimal | InputEvent::Backspace => {
                ControlAction::Nothing
            },
        }
    }

    fn handle_entry(&mut self, kind: EntryKind, input: InputEvent, car: Option<i32>) -> (action:
        ControlAction)
        requires
            kind == EntryKind::Fuel ==> old(self)@.page == MenuPage::FuelInput,
            kind == EntryKind::Odometer ==> old(self)@.page == MenuPage::OdometerInput,
        ensures
            (final(self)@, action) == entry_step(old(self)@, kind, input, car),
    {
        match input {
            InputEvent::Digit(_) | InputEvent::Decimal | InputEvent::Backspace => {
                match kind {
                    EntryKind::Fuel => self.fuel.edit(kind, input),
                    EntryKind::Odometer => self.odometer.edit(kind, input),
                }
                ControlAction::Nothing
            },
            InputEvent::Primary | InputEvent::Confirm => match car {
                Some(car) => match kind {
                    EntryKind::Fuel => ControlAction::SubmitFuel(car),
                    EntryKind::Odometer => ControlAction::SubmitOdometer(car),
                },
                None => {
                    match kind {
                        EntryKind::Fuel => self.fuel.set_notice(
                            Some(EntryNotice::WaitingForTelemetry),
                        ),
                        EntryKind::Odometer => self.odometer.set_notice(
                            Some(EntryNotice::WaitingForTelemetry),
                        ),
                    }
                    ControlAction::Nothing
                },
            },
            InputEvent::Back | InputEvent::Cancel => {
                self.menu.back();
                match kind {
                    EntryKind::Fuel => self.fuel.clear(),
                    EntryKind::Odometer => self.odometer.clear(),
                }
                ControlAction::Nothing
            },
            InputEvent::Up | InputEvent::Down => ControlAction::Nothing,
        }
    }

    fn apply_effect(&mut self, effect: MenuEffect, car: Option<i32>) -> (action: ControlAction)
        ensures
            (final(self)@, action) == effect_step(old(self)@, effect, car),
    {
        match effect {
            MenuEffect::Nothing => ControlAction::Nothing,
            MenuEffect::ReloadOverlay => ControlAction::ReloadOverlay,
            MenuEffect::ToggleUsage => match car {
                Some(car) => ControlAction::ToggleUsage(car),
                None => ControlAction::Nothing,
            },
            MenuEffect::OpenOdometerInput => {
                self.odometer.clear();
                ControlAction::Nothing
            },
            MenuEffect::OpenFuelInput => {
                self.fuel.clear();
                ControlAction::Nothing
            },
            MenuEffect::SetNavigation(target) => {
                self.navigation_target = target;
                ControlAction::Nothing
            },
            MenuEffect::CycleHudMode => {
                self.hud_mode = cycle_hud_mode(self.hud_mode);
                ControlAction::Nothing
            },
            MenuEffect::ResetSession => ControlAction::ResetSession,
        }
    }

    /// Records how a submitted entry form ended: a saved value closes the menu,
    /// otherwise the form stays open with the matching notice.
    pub fn finish_submission(&mut self, kind: EntryKind, outcome: SubmitOutcome)
        ensures
            final(self)@ == after_submission(old(self)@, kind, outcome),
    {
        let notice = match outcome {
            SubmitOutcome::Saved => None,
            SubmitOutcome::Invalid => Some(EntryNotice::InvalidValue),
            SubmitOutcome::SaveFailed => Some(EntryNotice::SaveFailed),
        };
        match kind {
            EntryKind::Fuel => self.fuel.set_notice(notice),
            EntryKind::Odometer => self.odometer.set_notice(notice),
        }
        if outcome == SubmitOutcome::Saved {
            self.menu.close();
        }
    }
}

/// The HUD mode that follows `mode`: Life, Drive, Minimal, then Life again.
pub fn cycle_hud_mode(mode: HudMode) -> (next: HudMode)
    ensures
        next == next_hud_mode(mode),
{
    match mode {
        HudMode::Life => HudMode::Drive,
        HudMode::Drive => HudMode::Minimal,
        HudMode::Minimal => HudMode::Life,
    }
}

/// No decimal point in `text` is followed by another one.
pub open spec fn at_most_one_point(text: Seq<char>) -> bool {
    forall|i: int, j: int| 0 <= i < j < text.len() && text[i] == '.' ==> text[j] != '.'
}

/// Backing out of an entry form (Left or Escape) returns to the first row of the
/// main menu and empties the form.
pub proof fn lemma_cancel_returns_to_main_menu(v: ControlsView, input: InputEvent, car: Option<i32>)
    requires
        v.page == MenuPage::FuelInput || v.page == MenuPage::OdometerInput,
        input == InputEvent::Back || input == InputEvent::Cancel,
    ensures
        control_step(v, input, car).0.page == MenuPage::Main,
        control_step(v, input, car).0.selected == 0,
        control_step(v, input, car).1 == ControlAction::Nothing,
        v.page == MenuPage::FuelInput ==> control_step(v, input, car).0.fuel == blank_entry(),
        v.page == MenuPage::OdometerInput ==> control_step(v, input, car).0.odometer
            == blank_entry(),
{
}

/// While the menu is closed, every key but the primary one (Right or Enter) is ignored.
pub proof fn lemma_closed_menu_ignores_other_keys(v: ControlsView, input: InputEvent, car: Option<i32>)
    requires
        v.page == MenuPage::Closed,
        input != InputEvent::Primary,
        input != InputEvent::Confirm,
    ensures
        control_step(v, input, car) == (v, ControlAction::Nothing),
{
}

/// Cycling the HUD mode three times comes back to where it started.
pub proof fn lemma_hud_mode_cycle_has_three_steps(mode: HudMode)
    ensures
        next_hud_mode(next_hud_mode(next_hud_mode(mode))) == mode,
        next_hud_mode(mode) != mode,
{
}

/// Typing digits, the decimal point and backspace keeps an ASCII entry text
/// within its form's limit.
pub proof fn lemma_entry_text_stays_within_limit(kind: EntryKind, text: Seq<char>, input: InputEvent)
    requires
        is_ascii_chars(text),
        text.len() <= entry_limit(kind),
        input matches InputEvent::Digit(c) ==> '0' <= c <= '9',
    ensures
        is_ascii_chars(edited_text(kind, text, input)),
        edited_text(kind, text, input).len() <= entry_limit(kind),
{
    vstd::utf8::is_ascii_chars_encode_utf8(text);
    let edited = edited_text(kind, text, input);
    assert forall|i| 0 <= i < edited.len() implies '\0' <= #[trigger] edited[i] <= '\u{7f}' by {
        if i < text.len() {
            assert(edited[i] == text[i]);
        }
    }
}

/// An entry text never gets a second decimal point, as long as the digit keys
/// deliver digits.
pub proof fn lemma_entry_text_keeps_one_point(kind: EntryKind, text: Seq<char>, input: InputEvent)
    requires
        at_most_one_point(text),
        input matches InputEvent::Digit(c) ==> c != '.',
    ensures
        at_most_one_point(edited_text(kind, text, input)),
{
    let edited = edited_text(kind, text, input);
    if input == InputEvent::Decimal && edited != text {
        assert forall|i: int| 0 <= i < text.len() implies text[i] != '.' by {
            if text[i] == '.' {
                assert(text.contains('.'));
            }
        }
    }
    assert forall|i: int, j: int|
        0 <= i < j < edited.len() && edited[i] == '.' implies edited[j] != '.' by {
        if j < text.len() {
            assert(edited[i] == text[i] && edited[j] == text[j]);
        }
    }
}

/// On the navigation page, Right or Enter on "Closest gas station", "Closest
/// workshop" and "End navigation" sets the target to the closest gas station,
/// the closest workshop, or no target at all, whatever the target was before;
/// the menu closes and nothing is handed to the overlay.
pub proof fn lemma_navigation_rows_set_the_target(v: ControlsView, input: InputEvent, car: Option<i32>)
    requires
        v.page == MenuPage::Navigation,
        v.selected < 3,
        input == InputEvent::Primary || input == InputEvent::Confirm,
    ensures
        control_step(v, input, car).0.navigation_target == if v.selected == 0 {
            Some(LocationKind::Gas)
        } else if v.selected == 1 {
            Some(LocationKind::Workshop)
        } else {
            None::<LocationKind>
        },
        control_step(v, input, car).0.page == MenuPage::Closed,
        control_step(v, input, car).1 == ControlAction::Nothing,
        control_step(v, input, car).0.hud_mode == v.hud_mode,
{
}

/// Whenever the highlighted row's action is to navigate to `target` (or to no
/// target), the key press that takes it leaves exactly that target; every other
/// key press leaves the target as it was.
pub proof fn lemma_target_follows_the_chosen_row(v: ControlsView, input: InputEvent, car: Option<i32>)
    ensures
        v.page != MenuPage::FuelInput && v.page != MenuPage::OdometerInput && (input
            == InputEvent::Primary || input == InputEvent::Confirm) ==> match after_primary(
            v.page,
            v.selected,
        ).2 {
            MenuEffect::SetNavigation(target) => control_step(v, input, car).0.navigation_target
                == target,
            _ => control_step(v, input, car).0.navigation_target == v.navigation_target,
        },
        !(input == InputEvent::Primary || input == InputEvent::Confirm) ==> control_step(
            v,
            input,
            car,
        ).0.navigation_target == v.navigation_target,
        v.page == MenuPage::FuelInput || v.page == MenuPage::OdometerInput ==> control_step(
            v,
            input,
            car,
        ).0.navigation_target == v.navigation_target,
{
}

} // verus!
