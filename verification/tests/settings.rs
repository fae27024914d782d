use typing_session::bar::{
    button_bar, handle_settings_buttons, move_left, move_right, BarItem, Button, ButtonProbe,
    BAR_LEN,
};
use typing_session::config::{
    ConfigOption, Mode, SessionConfig, DEFAULT_BATCH_SIZE, DEFAULT_TIME_LIMIT_MS,
};

fn timed(limit_ms: u64) -> SessionConfig {
    SessionConfig::new(Mode::TimeLimited { limit_ms })
}

fn worded(batch_size: usize) -> SessionConfig {
    SessionConfig::new(Mode::WordLimited { batch_size })
}

fn consistent(config: &SessionConfig) -> bool {
    !config.quote || (!config.punctuation && !config.numbers)
}

fn quiet() -> Vec<ButtonProbe> {
    vec![ButtonProbe { clicked: false, hovered: false }; BAR_LEN]
}

fn click(place: usize) -> Vec<ButtonProbe> {
    let mut probes = quiet();
    probes[place] = ButtonProbe { clicked: true, hovered: true };
    probes
}

#[test]
fn plain_settings() {
    let config = timed(15_000);
    assert!(!config.punctuation);
    assert!(!config.numbers);
    assert!(!config.quote);
    assert_eq!(config.mode, Mode::TimeLimited { limit_ms: 15_000 });
}

#[test]
fn punctuation_and_numbers_toggle() {
    let config = timed(15_000).select(ConfigOption::Punctuation);
    assert!(config.punctuation);
    assert!(!config.numbers);
    let config = config.select(ConfigOption::Numbers);
    assert!(config.punctuation && config.numbers);
    let config = config.select(ConfigOption::Punctuation);
    assert!(!config.punctuation && config.numbers);
    assert_eq!(config.mode, Mode::TimeLimited { limit_ms: 15_000 });
}

#[test]
fn quote_clears_punctuation_and_numbers() {
    let config = worded(25).select(ConfigOption::Punctuation).select(ConfigOption::Numbers);
    let quoted = config.select(ConfigOption::Quote);
    assert!(quoted.quote);
    assert!(!quoted.punctuation);
    assert!(!quoted.numbers);
    assert_eq!(quoted.mode, Mode::WordLimited { batch_size: 25 });
    // Neither is on offer while a quote is asked for.
    assert!(!quoted.is_enabled(ConfigOption::Punctuation));
    assert!(!quoted.is_enabled(ConfigOption::Numbers));
    assert_eq!(quoted.select(ConfigOption::Punctuation), quoted);
    assert_eq!(quoted.select(ConfigOption::Numbers), quoted);
}

#[test]
fn choosing_a_mode_leaves_quote_mode() {
    let quoted = timed(30_000).select(ConfigOption::Quote);
    let back = quoted.select(ConfigOption::Time);
    assert!(!back.quote);
    assert_eq!(back.mode, Mode::TimeLimited { limit_ms: 30_000 });
    let words = quoted.select(ConfigOption::Words);
    assert!(!words.quote);
    assert_eq!(words.mode, Mode::WordLimited { batch_size: DEFAULT_BATCH_SIZE });
}

#[test]
fn switching_modes_installs_the_default() {
    let words = timed(60_000).select(ConfigOption::Words);
    assert_eq!(words.mode, Mode::WordLimited { batch_size: 50 });
    let time = worded(100).select(ConfigOption::Time);
    assert_eq!(time.mode, Mode::TimeLimited { limit_ms: 5_000 });
    assert_eq!(DEFAULT_TIME_LIMIT_MS, 5_000);
    // Choosing the mode that is set keeps its parameter.
    assert_eq!(worded(100).select(ConfigOption::Words), worded(100));
    assert_eq!(timed(60_000).select(ConfigOption::Time), timed(60_000));
}

#[test]
fn limits_and_batch_sizes_apply_in_their_mode_only() {
    assert_eq!(timed(15_000).select(ConfigOption::TimeLimit(120_000)), timed(120_000));
    assert_eq!(timed(15_000).select(ConfigOption::BatchSize(25)), timed(15_000));
    assert_eq!(worded(50).select(ConfigOption::BatchSize(25)), worded(25));
    assert_eq!(worded(50).select(ConfigOption::TimeLimit(30_000)), worded(50));
    let quoted = timed(15_000).select(ConfigOption::Quote);
    assert_eq!(quoted.select(ConfigOption::TimeLimit(30_000)), quoted);
    assert_eq!(quoted.select(ConfigOption::BatchSize(25)), quoted);
}

#[test]
fn no_choice_leads_to_contradictory_flags() {
    let options = [
        ConfigOption::Punctuation,
        ConfigOption::Numbers,
        ConfigOption::Time,
        ConfigOption::Words,
        ConfigOption::Quote,
        ConfigOption::TimeLimit(15_000),
        ConfigOption::BatchSize(100),
    ];
    let mut reached = vec![timed(15_000)];
    for _ in 0..4 {
        let mut next = Vec::new();
        for config in &reached {
            for option in options {
                let chosen = config.select(option);
                assert!(consistent(&chosen));
                next.push(chosen);
            }
        }
        next.dedup();
        reached = next;
    }
}

#[test]
fn active_options() {
    let config = timed(30_000).select(ConfigOption::Numbers);
    assert!(config.is_active(ConfigOption::Numbers));
    assert!(!config.is_active(ConfigOption::Punctuation));
    assert!(config.is_active(ConfigOption::Time));
    assert!(!config.is_active(ConfigOption::Words));
    assert!(!config.is_active(ConfigOption::Quote));
    assert!(config.is_active(ConfigOption::TimeLimit(30_000)));
    assert!(!config.is_active(ConfigOption::TimeLimit(15_000)));
    assert!(!config.is_active(ConfigOption::BatchSize(50)));
    let quoted = config.select(ConfigOption::Quote);
    assert!(quoted.is_active(ConfigOption::Quote));
    assert!(!quoted.is_active(ConfigOption::Time));
    assert!(!quoted.is_active(ConfigOption::Numbers));
}

#[test]
fn bar_in_time_mode() {
    let buttons = button_bar(&timed(30_000));
    assert_eq!(buttons.len(), BAR_LEN);
    let items: Vec<BarItem> = buttons.iter().map(|b| b.item).collect();
    assert_eq!(
        items,
        vec![
            BarItem::Choice(ConfigOption::Punctuation),
            BarItem::Choice(ConfigOption::Numbers),
            BarItem::Separator,
            BarItem::Choice(ConfigOption::Time),
            BarItem::Choice(ConfigOption::Words),
            BarItem::Choice(ConfigOption::Quote),
            BarItem::Separator,
            BarItem::Choice(ConfigOption::TimeLimit(15_000)),
            BarItem::Choice(ConfigOption::TimeLimit(30_000)),
            BarItem::Choice(ConfigOption::TimeLimit(60_000)),
            BarItem::Choice(ConfigOption::TimeLimit(120_000)),
            BarItem::Choice(ConfigOption::BatchSize(25)),
            BarItem::Choice(ConfigOption::BatchSize(50)),
            BarItem::Choice(ConfigOption::BatchSize(100)),
        ]
    );
    let enabled: Vec<bool> = buttons.iter().map(|b| b.enabled).collect();
    assert_eq!(
        enabled,
        vec![
            true, true, true, true, true, true, true, true, true, true, true, false, false,
            false
        ]
    );
    let active: Vec<bool> = buttons.iter().map(|b| b.active).collect();
    assert_eq!(
        active,
        vec![
            false, false, true, true, false, false, true, false, true, false, false, false,
            false, false
        ]
    );
}

#[test]
fn bar_in_quote_mode_offers_modes_only() {
    let buttons = button_bar(&worded(25).select(ConfigOption::Quote));
    let enabled: Vec<bool> = buttons.iter().map(|b| b.enabled).collect();
    assert_eq!(
        enabled,
        vec![
            false, false, true, true, true, true, true, false, false, false, false, false,
            false, false
        ]
    );
    assert!(buttons[5].active);
    assert!(!buttons[4].active);
}

#[test]
fn selection_moves_past_separators_and_hidden_buttons() {
    let buttons = button_bar(&timed(30_000));
    assert_eq!(move_right(&buttons, 0), 1);
    assert_eq!(move_right(&buttons, 1), 3);
    assert_eq!(move_right(&buttons, 5), 7);
    assert_eq!(move_right(&buttons, 10), 0);
    assert_eq!(move_left(&buttons, 0), 10);
    assert_eq!(move_left(&buttons, 3), 1);
    assert_eq!(move_left(&buttons, 7), 5);
    assert_eq!(move_left(&buttons, 8), 7);

    let buttons = button_bar(&worded(25));
    assert_eq!(move_right(&buttons, 5), 11);
    assert_eq!(move_right(&buttons, 13), 0);
    assert_eq!(move_left(&buttons, 11), 5);
    assert_eq!(move_left(&buttons, 0), 13);

    let buttons = button_bar(&worded(25).select(ConfigOption::Quote));
    assert_eq!(move_right(&buttons, 5), 3);
    assert_eq!(move_left(&buttons, 3), 5);
    assert_eq!(move_right(&buttons, 3), 4);
}

#[test]
fn selection_stays_where_it_cannot_rest_or_go() {
    let buttons = button_bar(&timed(30_000));
    // On a separator, on a hidden button, outside the bar.
    assert_eq!(move_left(&buttons, 2), 2);
    assert_eq!(move_right(&buttons, 2), 2);
    assert_eq!(move_left(&buttons, 12), 12);
    assert_eq!(move_right(&buttons, 12), 12);
    assert_eq!(move_left(&buttons, 14), 14);
    assert_eq!(move_right(&buttons, 99), 99);
    // No other button on offer.
    let lonely = vec![
        Button { item: BarItem::Separator, active: true, enabled: true },
        Button { item: BarItem::Choice(ConfigOption::Quote), active: false, enabled: true },
        Button { item: BarItem::Choice(ConfigOption::Time), active: false, enabled: false },
    ];
    assert_eq!(move_left(&lonely, 1), 1);
    assert_eq!(move_right(&lonely, 1), 1);
    let single = vec![Button {
        item: BarItem::Choice(ConfigOption::Quote),
        active: false,
        enabled: true,
    }];
    assert_eq!(move_left(&single, 0), 0);
    assert_eq!(move_right(&single, 0), 0);
    let empty: Vec<Button> = Vec::new();
    assert_eq!(move_left(&empty, 0), 0);
    assert_eq!(move_right(&empty, 0), 0);
}

#[test]
fn pointer_over_nothing() {
    let update = handle_settings_buttons(&timed(30_000), &quiet());
    assert!(!update.any_hovered);
    assert_eq!(update.config, None);
    let update = handle_settings_buttons(&timed(30_000), &Vec::new());
    assert!(!update.any_hovered);
    assert_eq!(update.config, None);
}

#[test]
fn pointer_hovers_over_a_button() {
    let mut probes = quiet();
    probes[4].hovered = true;
    let update = handle_settings_buttons(&timed(30_000), &probes);
    assert!(update.any_hovered);
    assert_eq!(update.config, None);
}

#[test]
fn separators_and_hidden_buttons_take_no_pointer() {
    let mut probes = quiet();
    probes[2] = ButtonProbe { clicked: true, hovered: true };
    probes[6] = ButtonProbe { clicked: true, hovered: true };
    probes[12] = ButtonProbe { clicked: true, hovered: true };
    let update = handle_settings_buttons(&timed(30_000), &probes);
    assert!(!update.any_hovered);
    assert_eq!(update.config, None);
}

#[test]
fn click_on_a_button() {
    let update = handle_settings_buttons(&timed(30_000), &click(4));
    assert!(update.any_hovered);
    assert_eq!(update.config, Some(worded(DEFAULT_BATCH_SIZE)));

    let update = handle_settings_buttons(&timed(30_000), &click(9));
    assert_eq!(update.config, Some(timed(60_000)));

    let update = handle_settings_buttons(&worded(50), &click(13));
    assert_eq!(update.config, Some(worded(100)));

    let update = handle_settings_buttons(&worded(50), &click(5));
    let quoted = update.config.unwrap();
    assert!(quoted.quote);
    assert_eq!(quoted, worded(50).select(ConfigOption::Quote));
}

#[test]
fn click_on_what_is_in_force_does_nothing_unless_it_toggles() {
    let update = handle_settings_buttons(&timed(30_000), &click(3));
    assert!(update.any_hovered);
    assert_eq!(update.config, None);
    let update = handle_settings_buttons(&timed(30_000), &click(8));
    assert_eq!(update.config, None);

    let with_numbers = timed(30_000).select(ConfigOption::Numbers);
    let update = handle_settings_buttons(&with_numbers, &click(1));
    assert_eq!(update.config, Some(timed(30_000)));
    let update = handle_settings_buttons(&timed(30_000), &click(0));
    assert_eq!(update.config, Some(timed(30_000).select(ConfigOption::Punctuation)));
}

#[test]
fn several_clicks_apply_left_to_right() {
    let mut probes = quiet();
    probes[0].clicked = true;
    probes[5].clicked = true;
    let update = handle_settings_buttons(&timed(30_000), &probes);
    assert!(!update.any_hovered);
    let config = update.config.unwrap();
    assert!(config.quote);
    assert!(!config.punctuation);

    let mut probes = quiet();
    probes[4].clicked = true;
    probes[7].clicked = true;
    let update = handle_settings_buttons(&timed(30_000), &probes);
    // The limit was on the bar as drawn, but is no longer on offer once
    // word mode is chosen.
    assert_eq!(update.config, Some(worded(DEFAULT_BATCH_SIZE)));
}
