use vstd::prelude::*;

use crate::locations::LocationKind;

verus! {

/// The page the overlay menu currently shows.
#[derive(Clone, Copy, Debug, Default, PartialEq, Eq, Structural)]
pub enum MenuPage {
    #[default]
    Closed,
    Main,
    Navigation,
    VehicleCard,
    OdometerInput,
    FuelInput,
}

/// What the overlay has to do after the primary action was taken on a menu row.
#[derive(Clone, Copy, Debug, PartialEq, Eq, Structural)]
pub enum MenuEffect {
    Nothing,
    ReloadOverlay,
    ToggleUsage,
    OpenOdometerInput,
    OpenFuelInput,
    SetNavigation(Option<LocationKind>),
    CycleHudMode,
    ResetSession,
}

/// Which heads-up display layout is shown.
#[derive(Clone, Copy, Debug, Default, PartialEq, Eq, Structural)]
pub enum HudMode {
    #[default]
    Life,
    Drive,
    Minimal,
}

/// The menu's page and the highlighted row on it.
pub struct MenuState {
    page: MenuPage,
    selected: usize,
}

/// Number of selectable rows on a page; pages without a row list have none.
pub open spec fn row_count(page: MenuPage) -> nat {
    match page {
        MenuPage::Main => 9,
        MenuPage::Navigation => 4,
        _ => 0,
    }
}

/// The highlighted row lies on the page (trivially so on pages without rows).
pub open spec fn selection_on_page(page: MenuPage, selected: usize) -> bool {
    row_count(page) > 0 ==> selected < row_count(page)
}

/// The row reached by moving `step` rows from `selected`, wrapping around the
/// page's rows; a highlight that is not on a row counts as the first row.
pub open spec fn moved_selection(page: MenuPage, selected: usize, step: int) -> usize {
    let n = row_count(page);
    if n == 0 {
        selected
    } else {
        let position: int = if selected < n { selected as int } else { 0 };
        ((position + step) % (n as int)) as usize
    }
}

/// Page and highlight after "back".
pub open spec fn after_back(page: MenuPage, selected: usize) -> (MenuPage, usize) {
    match page {
        MenuPage::Closed => (MenuPage::Closed, selected),
        MenuPage::Main => (MenuPage::Closed, selected),
        _ => (MenuPage::Main, 0),
    }
}

/// Page, highlight and effect after the primary action.
pub open spec fn after_primary(page: MenuPage, selected: usize) -> (MenuPage, usize, MenuEffect) {
    match page {
        MenuPage::Closed => (MenuPage::Main, 0, MenuEffect::Nothing),
        MenuPage::VehicleCard | MenuPage::OdometerInput | MenuPage::FuelInput => (
            MenuPage::Closed,
            selected,
            MenuEffect::Nothing,
        ),
        MenuPage::Main => if selected == 0 {
            (MenuPage::Navigation, 0, MenuEffect::Nothing)
        } else if selected == 1 {
            (MenuPage::VehicleCard, 0, MenuEffect::Nothing)
        } else if selected == 2 {
            (MenuPage::Closed, selected, MenuEffect::ToggleUsage)
        } else if selected == 3 {
            (MenuPage::OdometerInput, 0, MenuEffect::OpenOdometerInput)
        } else if selected == 4 {
            (MenuPage::FuelInput, 0, MenuEffect::OpenFuelInput)
        } else if selected == 5 {
            (MenuPage::Closed, selected, MenuEffect::ResetSession)
        } else if selected == 6 {
            (MenuPage::Closed, selected, MenuEffect::CycleHudMode)
        } else if selected == 7 {
            (MenuPage::Closed, selected, MenuEffect::Nothing)
        } else if selected == 8 {
            (MenuPage::Closed, selected, MenuEffect::ReloadOverlay)
        } else {
            (MenuPage::Main, selected, MenuEffect::Nothing)
        },
        MenuPage::Navigation => if selected == 0 {
            (MenuPage::Closed, selected, MenuEffect::SetNavigation(Some(LocationKind::Gas)))
        } else if selected == 1 {
            (MenuPage::Closed, selected, MenuEffect::SetNavigation(Some(LocationKind::Workshop)))
        } else if selected == 2 {
            (MenuPage::Closed, selected, MenuEffect::SetNavigation(None))
        } else if selected == 3 {
            (MenuPage::Main, 0, MenuEffect::Nothing)
        } else {
            (MenuPage::Navigation, selected, MenuEffect::Nothing)
        },
    }
}

impl MenuState {
    /// The page shown.
    pub closed spec fn current_page(&self) -> MenuPage {
        self.page
    }

    /// The highlighted row.
    pub closed spec fn cursor(&self) -> usize {
        self.selected
    }

    pub fn page(&self) -> (page: MenuPage)
        ensures
            page == self.current_page(),
    {
        self.page
    }

    pub fn selected(&self) -> (selected: usize)
        ensures
            selected == self.cursor(),
    {
        self.selected
    }

    /// Highlights the previous row of the page, wrapping to the last one.
    pub fn up(&mut self)
        ensures
            final(self).current_page() == old(self).current_page(),
            final(self).cursor() == moved_selection(old(self).current_page(), old(self).cursor(), -1),
    {
        self.move_selection(false);
    }

    /// Highlights the next row of the page, wrapping to the first one.
    pub fn down(&mut self)
        ensures
            final(self).current_page() == old(self).current_page(),
            final(self).cursor() == moved_selection(old(self).current_page(), old(self).cursor(), 1),
    {
        self.move_selection(true);
    }

    /// Closes the menu; the highlight is kept.
    pub fn close(&mut self)
        ensures
            final(self).current_page() == MenuPage::Closed,
            final(self).cursor() == old(self).cursor(),
    {
        self.page = MenuPage::Closed;
    }

    /// Leaves the page: sub-pages return to the main menu, the main menu closes.
    pub fn back(&mut self)
        ensures
            (final(self).current_page(), final(self).cursor()) == after_back(
                old(self).current_page(),
                old(self).cursor(),
            ),
    {
        match self.page {
            MenuPage::Closed => {},
            MenuPage::Main => self.close(),
            MenuPage::Navigation
            | MenuPage::VehicleCard
            | MenuPage::OdometerInput
            | MenuPage::FuelInput => self.open(MenuPage::Main),
        }
    }

    /// Takes the action of the highlighted row (or opens the menu when closed).
    pub fn primary(&mut self) -> (effect: MenuEffect)
        ensures
            (final(self).current_page(), final(self).cursor(), effect) == after_primary(
                old(self).current_page(),
                old(self).cursor(),
            ),
    {
        match self.page {
            MenuPage::Closed => {
                self.open(MenuPage::Main);
                MenuEffect::Nothing
            },
            MenuPage::VehicleCard | MenuPage::OdometerInput | MenuPage::FuelInput => {
                self.close();
                MenuEffect::Nothing
            },
            MenuPage::Main => match self.selected {
                0 => {
                    self.open(MenuPage::Navigation);
                    MenuEffect::Nothing
                },
                1 => {
                    self.open(MenuPage::VehicleCard);
                    MenuEffect::Nothing
                },
                2 => {
                    self.close();
                    MenuEffect::ToggleUsage
                },
                3 => {
                    self.open(MenuPage::OdometerInput);
                    MenuEffect::OpenOdometerInput
                },
                4 => {
                    self.open(MenuPage::FuelInput);
                    MenuEffect::OpenFuelInput
                },
                5 => {
                    self.close();
                    MenuEffect::ResetSession
                },
                6 => {
                    self.close();
                    MenuEffect::CycleHudMode
                },
                7 => {
                    self.close();
                    MenuEffect::Nothing
                },
                8 => {
                    self.close();
                    MenuEffect::ReloadOverlay
                },
                _ => MenuEffect::Nothing,
            },
            MenuPage::Navigation => match self.selected {
                0 => {
                    self.close();
                    MenuEffect::SetNavigation(Some(LocationKind::Gas))
                },
                1 => {
                    self.close();
                    MenuEffect::SetNavigation(Some(LocationKind::Workshop))
                },
                2 => {
                    self.close();
                    MenuEffect::SetNavigation(None)
                },
                3 => {
                    self.open(MenuPage::Main);
                    MenuEffect::Nothing
                },
                _ => MenuEffect::Nothing,
            },
        }
    }

    fn open(&mut self, page: MenuPage)
        ensures
            final(self).current_page() == page,
            final(self).cursor() == 0,
    {
        self.page = page;
        self.selected = 0;
    }

    /// Moves the highlight one row forward (`forward`) or backward.
    fn move_selection(&mut self, forward: bool)
        ensures
            final(self).current_page() == old(self).current_page(),
            final(self).cursor() == moved_selection(
                old(self).current_page(),
                old(self).cursor(),
                if forward { 1 } else { -1 },
            ),
    {
        let count: usize = match self.page {
            MenuPage::Main => 9,
            MenuPage::Navigation => 4,
            MenuPage::Closed
            | MenuPage::VehicleCard
            | MenuPage::OdometerInput
            | MenuPage::FuelInput => return,
        };
        let position: usize = if self.selected < count { self.selected } else { 0 };
        self.selected = if forward {
            if position + 1 == count { 0 } else { position + 1 }
        } else {
            if position == 0 { count - 1 } else { position - 1 }
        };
    }
}

impl Default for MenuState {
    fn default() -> (state: Self)
        ensures
            state.current_page() == MenuPage::Closed,
            state.cursor() == 0,
    {
        MenuState { page: MenuPage::Closed, selected: 0 }
    }
}

/// The label of a HUD mode as shown in the menu.
pub open spec fn hud_mode_name(mode: HudMode) -> Seq<char> {
    match mode {
        HudMode::Life => "Life"@,
        HudMode::Drive => "Drive"@,
        HudMode::Minimal => "Minimal"@,
    }
}

pub fn hud_mode_label(mode: HudMode) -> (label: &'static str)
    ensures
        label@ == hud_mode_name(mode),
{
    match mode {
        HudMode::Life => "Life",
        HudMode::Drive => "Drive",
        HudMode::Minimal => "Minimal",
    }
}

/// One row of a menu list as drawn by the overlay.
pub struct MenuRow {
    pub icon: &'static str,
    pub text: String,
    pub enabled: bool,
}

/// Icons of the main menu rows, top to bottom: one row for each position the
/// highlight can take on the main page.
pub open spec fn main_menu_icons(usage_paused: bool) -> Seq<Seq<char>> {
    seq![
        "\u{1f310}"@,
        "\u{1f697}"@,
        if usage_paused { "\u{25b6}"@ } else { "\u{23f8}"@ },
        "KM"@,
        "%"@,
        "\u{27f3}"@,
        "HUD"@,
        "\u{274c}"@,
        "\u{21bb}"@,
    ]
}

/// Texts of the main menu rows, top to bottom.
pub open spec fn main_menu_texts(usage_paused: bool, hud_mode: HudMode) -> Seq<Seq<char>> {
    seq![
        "Set mini nav"@,
        "Vehicle info card"@,
        if usage_paused {
            "Resume fuel usage for this car"@
        } else {
            "Pause fuel usage for this car"@
        },
        "Set odometer"@,
        "Set fuel level (testing)"@,
        "Reset driving session"@,
        "HUD mode: "@ + hud_mode_name(hud_mode),
        "Close menu"@,
        "Reload overlay"@,
    ]
}

/// Icons of the navigation menu rows, top to bottom.
pub open spec fn navigation_menu_icons() -> Seq<Seq<char>> {
    seq!["\u{26fd}"@, "\u{1f527}"@, "\u{1f4f4}"@, "\u{21a9}"@]
}

/// Texts of the navigation menu rows, top to bottom.
pub open spec fn navigation_menu_texts() -> Seq<Seq<char>> {
    seq!["Closest gas station"@, "Closest workshop"@, "End navigation"@, "Back"@]
}

/// `rows` shows exactly the given icons and texts, every row enabled.
pub open spec fn rows_match(rows: Seq<MenuRow>, icons: Seq<Seq<char>>, texts: Seq<Seq<char>>) -> bool {
    &&& rows.len() == icons.len()
    &&& rows.len() == texts.len()
    &&& forall|i: int|
        0 <= i < rows.len() ==> {
            &&& (#[trigger] rows[i]).icon@ == icons[i]
            &&& rows[i].text@ == texts[i]
            &&& rows[i].enabled
        }
}

fn row(icon: &'static str, text: &str) -> (row: MenuRow)
    ensures
        row.icon@ == icon@,
        row.text@ == text@,
        row.enabled,
{
    MenuRow { icon, text: text.to_owned(), enabled: true }
}

/// The rows of the main menu.
pub fn main_menu_rows(usage_paused: bool, hud_mode: HudMode) -> (rows: Vec<MenuRow>)
    ensures
        rows_match(rows@, main_menu_icons(usage_paused), main_menu_texts(usage_paused, hud_mode)),
{
    let mut hud_text = String::from_str("HUD mode: ");
    hud_text.append(hud_mode_label(hud_mode));
    let mut rows: Vec<MenuRow> = Vec::new();
    rows.push(row("\u{1f310}", "Set mini nav"));
    rows.push(row("\u{1f697}", "Vehicle info card"));
    rows.push(
        row(
            if usage_paused { "\u{25b6}" } else { "\u{23f8}" },
            if usage_paused {
                "Resume fuel usage for this car"
            } else {
                "Pause fuel usage for this car"
            },
        ),
    );
    rows.push(row("KM", "Set odometer"));
    rows.push(row("%", "Set fuel level (testing)"));
    rows.push(row("\u{27f3}", "Reset driving session"));
    rows.push(MenuRow { icon: "HUD", text: hud_text, enabled: true });
    rows.push(row("\u{274c}", "Close menu"));
    rows.push(row("\u{21bb}", "Reload overlay"));
    assert(rows_match(rows@, main_menu_icons(usage_paused), main_menu_texts(usage_paused, hud_mode)));
    rows
}

/// The rows of the navigation menu.
pub fn navigation_menu_rows() -> (rows: Vec<MenuRow>)
    ensures
        rows_match(rows@, navigation_menu_icons(), navigation_menu_texts()),
{
    let mut rows: Vec<MenuRow> = Vec::new();
    rows.push(row("\u{26fd}", "Closest gas station"));
    rows.push(row("\u{1f527}", "Closest workshop"));
    rows.push(row("\u{1f4f4}", "End navigation"));
    rows.push(row("\u{21a9}", "Back"));
    assert(rows_match(rows@, navigation_menu_icons(), navigation_menu_texts()));
    rows
}

/// Each page lists one row for each position of the highlight, and the row at a
/// position names what the primary action does there.
pub proof fn lemma_rows_name_their_actions(usage_paused: bool, hud_mode: HudMode)
    ensures
        main_menu_icons(usage_paused).len() == row_count(MenuPage::Main),
        main_menu_texts(usage_paused, hud_mode).len() == row_count(MenuPage::Main),
        navigation_menu_icons().len() == row_count(MenuPage::Navigation),
        navigation_menu_texts().len() == row_count(MenuPage::Navigation),
        main_menu_texts(usage_paused, hud_mode)[0] == "Set mini nav"@
            && after_primary(MenuPage::Main, 0).0 == MenuPage::Navigation,
        main_menu_texts(usage_paused, hud_mode)[1] == "Vehicle info card"@
            && after_primary(MenuPage::Main, 1).0 == MenuPage::VehicleCard,
        main_menu_texts(usage_paused, hud_mode)[2] == (if usage_paused {
            "Resume fuel usage for this car"@
        } else {
            "Pause fuel usage for this car"@
        }) && after_primary(MenuPage::Main, 2).2 == MenuEffect::ToggleUsage,
        main_menu_texts(usage_paused, hud_mode)[3] == "Set odometer"@
            && after_primary(MenuPage::Main, 3).0 == MenuPage::OdometerInput
            && after_primary(MenuPage::Main, 3).2 == MenuEffect::OpenOdometerInput,
        main_menu_texts(usage_paused, hud_mode)[4] == "Set fuel level (testing)"@
            && after_primary(MenuPage::Main, 4).0 == MenuPage::FuelInput
            && after_primary(MenuPage::Main, 4).2 == MenuEffect::OpenFuelInput,
        main_menu_texts(usage_paused, hud_mode)[5] == "Reset driving session"@
            && after_primary(MenuPage::Main, 5).2 == MenuEffect::ResetSession,
        main_menu_texts(usage_paused, hud_mode)[6] == "HUD mode: "@ + hud_mode_name(hud_mode)
            && after_primary(MenuPage::Main, 6).2 == MenuEffect::CycleHudMode,
        main_menu_texts(usage_paused, hud_mode)[7] == "Close menu"@
            && after_primary(MenuPage::Main, 7) == (MenuPage::Closed, 7usize, MenuEffect::Nothing),
        main_menu_texts(usage_paused, hud_mode)[8] == "Reload overlay"@
            && after_primary(MenuPage::Main, 8).2 == MenuEffect::ReloadOverlay,
        navigation_menu_texts()[0] == "Closest gas station"@ && after_primary(
            MenuPage::Navigation,
            0,
        ).2 == MenuEffect::SetNavigation(Some(LocationKind::Gas)),
        navigation_menu_texts()[1] == "Closest workshop"@ && after_primary(
            MenuPage::Navigation,
            1,
        ).2 == MenuEffect::SetNavigation(Some(LocationKind::Workshop)),
        navigation_menu_texts()[2] == "End navigation"@ && after_primary(
            MenuPage::Navigation,
            2,
        ).2 == MenuEffect::SetNavigation(None),
        navigation_menu_texts()[3] == "Back"@ && after_primary(MenuPage::Navigation, 3).0
            == MenuPage::Main,
{
}

/// Moving the highlight down undoes moving it up, and moving it up undoes moving
/// it down, whenever the highlight is on one of the page's rows.
pub proof fn lemma_down_undoes_up(page: MenuPage, selected: usize)
    requires
        selection_on_page(page, selected),
    ensures
        moved_selection(page, moved_selection(page, selected, -1), 1) == selected,
        moved_selection(page, moved_selection(page, selected, 1), -1) == selected,
{
}

/// No menu operation takes the highlight off the rows of the page it leaves the
/// menu on, provided it started on one.
pub proof fn lemma_operations_keep_selection_on_page(page: MenuPage, selected: usize)
    requires
        selection_on_page(page, selected),
    ensures
        selection_on_page(page, moved_selection(page, selected, 1)),
        selection_on_page(page, moved_selection(page, selected, -1)),
        selection_on_page(after_back(page, selected).0, after_back(page, selected).1),
        selection_on_page(after_primary(page, selected).0, after_primary(page, selected).1),
        selection_on_page(MenuPage::Closed, selected),
{
}

/// One of the calls that change a `MenuState`.
#[derive(Clone, Copy, Debug, PartialEq, Eq, Structural)]
pub enum MenuCall {
    Up,
    Down,
    Back,
    Close,
    Primary,
}

/// Page and highlight after one call, as the calls' contracts give them.
pub open spec fn after_call(page: MenuPage, selected: usize, call: MenuCall) -> (MenuPage, usize) {
    match call {
        MenuCall::Up => (page, moved_selection(page, selected, -1)),
        MenuCall::Down => (page, moved_selection(page, selected, 1)),
        MenuCall::Back => after_back(page, selected),
        MenuCall::Close => (MenuPage::Closed, selected),
        MenuCall::Primary => (after_primary(page, selected).0, after_primary(page, selected).1),
    }
}

/// Page and highlight after the calls `calls`, in order, from `page` and `selected`.
pub open spec fn after_calls(page: MenuPage, selected: usize, calls: Seq<MenuCall>) -> (
    MenuPage,
    usize,
)
    decreases calls.len(),
{
    if calls.len() == 0 {
        (page, selected)
    } else {
        let before = after_calls(page, selected, calls.drop_last());
        after_call(before.0, before.1, calls.last())
    }
}

/// From the default state (closed, first row), any sequence of calls leaves the
/// highlight on one of the 9 main actions on the main page and on one of the 4
/// navigation actions on the navigation page.
pub proof fn lemma_reachable_highlight_is_on_a_row(calls: Seq<MenuCall>)
    ensures
        after_calls(MenuPage::Closed, 0, calls).0 == MenuPage::Main ==> after_calls(
            MenuPage::Closed,
            0,
            calls,
        ).1 < 9,
        after_calls(MenuPage::Closed, 0, calls).0 == MenuPage::Navigation ==> after_calls(
            MenuPage::Closed,
            0,
            calls,
        ).1 < 4,
{
    lemma_calls_keep_selection_on_page(MenuPage::Closed, 0, calls);
}

proof fn lemma_calls_keep_selection_on_page(page: MenuPage, selected: usize, calls: Seq<MenuCall>)
    requires
        selection_on_page(page, selected),
    ensures
        selection_on_page(after_calls(page, selected, calls).0, after_calls(page, selected, calls).1),
    decreases calls.len(),
{
    if calls.len() > 0 {
        lemma_calls_keep_selection_on_page(page, selected, calls.drop_last());
        let before = after_calls(page, selected, calls.drop_last());
        lemma_operations_keep_selection_on_page(before.0, before.1);
    }
}

} // verus!
