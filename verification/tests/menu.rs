use forzalife::{
    locations::LocationKind,
    menu::{main_menu_rows, navigation_menu_rows, hud_mode_label, HudMode, MenuEffect, MenuPage, MenuState},
};

#[test]
fn main_menu_matches_the_windows_interaction_flow() {
    let mut menu = MenuState::default();
    assert_eq!(menu.primary(), MenuEffect::Nothing);
    assert_eq!(menu.page(), MenuPage::Main);

    menu.down();
    assert_eq!(menu.selected(), 1);
    assert_eq!(menu.primary(), MenuEffect::Nothing);
    assert_eq!(menu.page(), MenuPage::VehicleCard);

    assert_eq!(menu.primary(), MenuEffect::Nothing);
    assert_eq!(menu.page(), MenuPage::Closed);
}

#[test]
fn navigation_submenu_sets_and_clears_the_target() {
    let mut menu = MenuState::default();
    menu.primary();
    assert_eq!(menu.primary(), MenuEffect::Nothing);
    assert_eq!(menu.page(), MenuPage::Navigation);

    assert_eq!(
        menu.primary(),
        MenuEffect::SetNavigation(Some(LocationKind::Gas))
    );
    assert_eq!(menu.page(), MenuPage::Closed);

    menu.primary();
    menu.primary();
    menu.down();
    menu.down();
    assert_eq!(menu.primary(), MenuEffect::SetNavigation(None));
}

#[test]
fn odometer_input_is_available_from_the_main_menu() {
    let mut menu = MenuState::default();
    menu.primary();
    menu.down();
    menu.down();
    menu.down();
    assert_eq!(menu.selected(), 3);
    assert_eq!(menu.primary(), MenuEffect::OpenOdometerInput);
    assert_eq!(menu.page(), MenuPage::OdometerInput);
}

#[test]
fn fuel_test_input_is_available_and_left_returns_to_the_menu() {
    let mut menu = MenuState::default();
    menu.primary();
    menu.down();
    menu.down();
    menu.down();
    menu.down();
    assert_eq!(menu.selected(), 4);
    assert_eq!(menu.primary(), MenuEffect::OpenFuelInput);
    assert_eq!(menu.page(), MenuPage::FuelInput);

    menu.back();
    assert_eq!(menu.page(), MenuPage::Main);
}

#[test]
fn reload_overlay_is_the_last_main_menu_action() {
    let mut menu = MenuState::default();
    menu.primary();
    for _ in 0..8 {
        menu.down();
    }
    assert_eq!(menu.selected(), 8);
    assert_eq!(menu.primary(), MenuEffect::ReloadOverlay);
    assert_eq!(menu.page(), MenuPage::Closed);
}

#[test]
fn main_menu_can_reset_session_and_cycle_hud_mode() {
    let mut menu = MenuState::default();
    menu.primary();
    for _ in 0..5 {
        menu.down();
    }
    assert_eq!(menu.primary(), MenuEffect::ResetSession);

    menu.primary();
    for _ in 0..6 {
        menu.down();
    }
    assert_eq!(menu.primary(), MenuEffect::CycleHudMode);
}

#[test]
fn selection_wraps_around_both_ends_of_a_page() {
    let mut menu = MenuState::default();
    menu.primary();
    menu.up();
    assert_eq!(menu.selected(), 8);
    menu.down();
    assert_eq!(menu.selected(), 0);

    menu.primary();
    assert_eq!(menu.page(), MenuPage::Navigation);
    menu.up();
    assert_eq!(menu.selected(), 3);
    menu.down();
    assert_eq!(menu.selected(), 0);
}

#[test]
fn up_then_down_returns_to_the_same_row_on_every_row() {
    let mut menu = MenuState::default();
    menu.primary();
    for row in 0..9 {
        assert_eq!(menu.selected(), row);
        menu.up();
        menu.down();
        assert_eq!(menu.selected(), row);
        menu.down();
        menu.up();
        assert_eq!(menu.selected(), row);
        menu.down();
    }
}

#[test]
fn pages_without_rows_ignore_up_and_down_and_back_leaves_them() {
    let mut menu = MenuState::default();
    menu.up();
    menu.down();
    assert_eq!(menu.page(), MenuPage::Closed);
    assert_eq!(menu.selected(), 0);
    menu.back();
    assert_eq!(menu.page(), MenuPage::Closed);

    menu.primary();
    menu.down();
    assert_eq!(menu.primary(), MenuEffect::Nothing);
    assert_eq!(menu.page(), MenuPage::VehicleCard);
    menu.down();
    assert_eq!(menu.selected(), 0);
    menu.back();
    assert_eq!(menu.page(), MenuPage::Main);
    assert_eq!(menu.selected(), 0);
    menu.back();
    assert_eq!(menu.page(), MenuPage::Closed);
}

#[test]
fn navigation_back_row_returns_to_the_main_menu() {
    let mut menu = MenuState::default();
    menu.primary();
    menu.primary();
    menu.up();
    assert_eq!(menu.selected(), 3);
    assert_eq!(menu.primary(), MenuEffect::Nothing);
    assert_eq!(menu.page(), MenuPage::Main);
    assert_eq!(menu.selected(), 0);
}

#[test]
fn remaining_main_menu_rows_close_the_menu() {
    let mut menu = MenuState::default();
    menu.primary();
    menu.down();
    menu.down();
    assert_eq!(menu.primary(), MenuEffect::ToggleUsage);
    assert_eq!(menu.page(), MenuPage::Closed);

    menu.primary();
    for _ in 0..7 {
        menu.down();
    }
    assert_eq!(menu.primary(), MenuEffect::Nothing);
    assert_eq!(menu.page(), MenuPage::Closed);

    menu.primary();
    menu.primary();
    menu.down();
    assert_eq!(
        menu.primary(),
        MenuEffect::SetNavigation(Some(LocationKind::Workshop))
    );
}

#[test]
fn menu_rows_read_as_on_screen() {
    let rows = main_menu_rows(false, HudMode::Drive);
    assert_eq!(rows.len(), 9);
    assert_eq!(rows[0].text, "Set mini nav");
    assert_eq!(rows[0].icon, "🌐");
    assert_eq!(rows[2].text, "Pause fuel usage for this car");
    assert_eq!(rows[2].icon, "⏸");
    assert_eq!(rows[6].text, "HUD mode: Drive");
    assert_eq!(rows[5].text, "Reset driving session");
    assert_eq!(rows[7].text, "Close menu");
    assert_eq!(rows[7].icon, "❌");
    assert_eq!(rows[8].text, "Reload overlay");
    assert_eq!(rows[8].icon, "↻");
    assert!(rows.iter().all(|row| row.enabled));

    let paused = main_menu_rows(true, HudMode::Minimal);
    assert_eq!(paused[2].text, "Resume fuel usage for this car");
    assert_eq!(paused[2].icon, "▶");
    assert_eq!(paused[6].text, "HUD mode: Minimal");

    let navigation = navigation_menu_rows();
    let texts: Vec<&str> = navigation.iter().map(|row| row.text.as_str()).collect();
    assert_eq!(
        texts,
        ["Closest gas station", "Closest workshop", "End navigation", "Back"]
    );
    assert_eq!(navigation[0].icon, "⛽");
    assert_eq!(hud_mode_label(HudMode::Life), "Life");
    assert_eq!(HudMode::default(), HudMode::Life);
}

#[test]
fn each_main_menu_row_names_the_action_at_its_position() {
    let rows = main_menu_rows(false, HudMode::Life);
    let mut outcomes = Vec::new();
    for position in 0..rows.len() {
        let mut menu = MenuState::default();
        menu.primary();
        for _ in 0..position {
            menu.down();
        }
        assert_eq!(menu.selected(), position);
        let effect = menu.primary();
        outcomes.push((rows[position].text.clone(), effect, menu.page()));
    }
    let mut wrapped = MenuState::default();
    wrapped.primary();
    for _ in 0..rows.len() {
        wrapped.down();
    }
    assert_eq!(wrapped.selected(), 0);
    assert_eq!(
        outcomes,
        vec![
            ("Set mini nav".to_owned(), MenuEffect::Nothing, MenuPage::Navigation),
            ("Vehicle info card".to_owned(), MenuEffect::Nothing, MenuPage::VehicleCard),
            (
                "Pause fuel usage for this car".to_owned(),
                MenuEffect::ToggleUsage,
                MenuPage::Closed
            ),
            (
                "Set odometer".to_owned(),
                MenuEffect::OpenOdometerInput,
                MenuPage::OdometerInput
            ),
            (
                "Set fuel level (testing)".to_owned(),
                MenuEffect::OpenFuelInput,
                MenuPage::FuelInput
            ),
            (
                "Reset driving session".to_owned(),
                MenuEffect::ResetSession,
                MenuPage::Closed
            ),
            (
                "HUD mode: Life".to_owned(),
                MenuEffect::CycleHudMode,
                MenuPage::Closed
            ),
            ("Close menu".to_owned(), MenuEffect::Nothing, MenuPage::Closed),
            (
                "Reload overlay".to_owned(),
                MenuEffect::ReloadOverlay,
                MenuPage::Closed
            ),
        ]
    );
}
