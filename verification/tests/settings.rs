use uad_settings::settings::{Message, Phone, Settings};
use uad_settings::theme::Theme;

#[test]
fn disable_mode_defaults_around_api_level_26() {
    assert!(Phone::defaults_for(0).disable_mode);
    assert!(Phone::defaults_for(25).disable_mode);
    assert!(!Phone::defaults_for(26).disable_mode);
    assert!(!Phone::defaults_for(33).disable_mode);
}

#[test]
fn multi_user_mode_defaults_around_api_level_21() {
    assert!(!Phone::defaults_for(0).multi_user_mode);
    assert!(!Phone::defaults_for(21).multi_user_mode);
    assert!(Phone::defaults_for(22).multi_user_mode);
    assert!(Phone::defaults_for(33).multi_user_mode);
}

#[test]
fn expert_mode_defaults_off_everywhere() {
    assert!(!Phone::defaults_for(0).expert_mode);
    assert!(!Phone::defaults_for(21).expert_mode);
    assert!(!Phone::defaults_for(26).expert_mode);
    assert!(!Phone::defaults_for(33).expert_mode);
}

#[test]
fn recognized_theme_names_parse_to_their_theme() {
    assert_eq!(Theme::from_name("Lupin"), Theme::Lupin);
    assert_eq!(Theme::from_name("Dark"), Theme::Dark);
    assert_eq!(Theme::from_name("Light"), Theme::Light);
}

#[test]
fn unrecognized_theme_names_fall_back_to_the_default() {
    assert_eq!(Theme::from_name("bogus"), Theme::default());
    assert_eq!(Theme::from_name(""), Theme::default());
    assert_eq!(Theme::from_name("dark"), Theme::default());
    assert_eq!(Theme::from_name("Lupin "), Theme::default());
}

#[test]
fn theme_names_round_trip_through_parsing() {
    for theme in Theme::all() {
        assert_eq!(Theme::from_name(theme.name()), theme);
    }
}

#[test]
fn construction_at_api_level_21_with_dark() {
    let s = Settings::new(21, "Dark");
    assert_eq!(
        s.phone,
        Phone { expert_mode: false, disable_mode: true, multi_user_mode: false }
    );
    assert_eq!(s.theme, Theme::Dark);
}

#[test]
fn construction_at_api_level_30_with_bogus_name() {
    let s = Settings::new(30, "bogus");
    assert_eq!(
        s.phone,
        Phone { expert_mode: false, disable_mode: false, multi_user_mode: true }
    );
    assert_eq!(s.theme, Theme::default());
}

#[test]
fn expert_mode_message_is_idempotent() {
    let mut once = Settings::new(30, "Dark");
    let mut twice = once;
    once.update(Message::ExpertMode(true));
    twice.update(Message::ExpertMode(true));
    twice.update(Message::ExpertMode(true));
    assert_eq!(once, twice);
}

#[test]
fn only_apply_theme_asks_for_persistence() {
    let mut s = Settings::new(30, "Dark");
    let mut save_count: usize = 0;
    if s.update(Message::ExpertMode(true)) {
        save_count += 1;
    }
    if s.update(Message::DisableMode(true)) {
        save_count += 1;
    }
    if s.update(Message::MultiUserMode(false)) {
        save_count += 1;
    }
    if s.update(Message::ExpertMode(false)) {
        save_count += 1;
    }
    assert_eq!(save_count, 0);
    if s.update(Message::ApplyTheme(Theme::Light)) {
        save_count += 1;
    }
    assert_eq!(save_count, 1);
}

#[test]
fn toggle_messages_act_independently() {
    let mut s = Settings::new(30, "Dark");
    s.update(Message::ExpertMode(true));
    s.update(Message::MultiUserMode(false));
    assert!(s.phone.expert_mode);
    assert!(!s.phone.multi_user_mode);
    assert!(!s.phone.disable_mode);
    assert_eq!(s.theme, Theme::Dark);
}

#[test]
fn apply_theme_sets_the_theme_and_nothing_else() {
    let mut s = Settings::new(21, "Light");
    let before = s.phone;
    let persist = s.update(Message::ApplyTheme(Theme::Lupin));
    assert!(persist);
    assert_eq!(s.theme, Theme::Lupin);
    assert_eq!(s.phone, before);
}

#[test]
fn disable_mode_message_sets_the_flag() {
    let mut s = Settings::new(30, "Dark");
    assert!(!s.phone.disable_mode);
    let persist = s.update(Message::DisableMode(true));
    assert!(!persist);
    assert!(s.phone.disable_mode);
    let persist = s.update(Message::DisableMode(false));
    assert!(!persist);
    assert!(!s.phone.disable_mode);
}

#[test]
fn all_lists_every_theme_once() {
    let themes = Theme::all();
    assert_eq!(themes, vec![Theme::Lupin, Theme::Dark, Theme::Light]);
}
