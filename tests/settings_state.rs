use faitout::settings::{FontOption, Message, SettingsState, ThemeOption};

#[test]
fn defaults() {
    let s = SettingsState::default_values();
    assert_eq!(s.selected_theme(), ThemeOption::KanagawaDragon);
    assert_eq!(s.selected_font(), FontOption::Sans);
    assert_eq!(s.font_size(), 16);
    assert_eq!(SettingsState::storage_path(), "settings.json");
}

#[test]
fn font_size_is_clamped() {
    let mut s = SettingsState::default_values();
    assert!(s.update(Message::FontSizeChanged(4)));
    assert_eq!(s.font_size(), 10);
    assert!(s.update(Message::FontSizeChanged(200)));
    assert_eq!(s.font_size(), 48);
    assert!(!s.update(Message::FontSizeChanged(60)));
    assert!(s.update(Message::FontSizeChanged(20)));
    assert_eq!(s.font_size(), 20);
}

#[test]
fn changes_are_reported_once() {
    let mut s = SettingsState::default_values();
    assert!(s.update(Message::ThemeChanged(ThemeOption::Nord)));
    assert!(!s.update(Message::ThemeChanged(ThemeOption::Nord)));
    assert!(s.update(Message::FontChanged(FontOption::Monospace)));
    assert!(!s.update(Message::FontChanged(FontOption::Monospace)));
    assert!(!s.update(Message::Back));
    assert_eq!(s.selected_theme(), ThemeOption::Nord);
    assert_eq!(s.selected_font(), FontOption::Monospace);
}

#[test]
fn restore_falls_back_to_defaults() {
    let s = SettingsState::restore(None);
    assert_eq!(s.font_size(), 16);
    let stored = SettingsState::from_parts(ThemeOption::SolarizedDark, FontOption::Serif, 30);
    let s = SettingsState::restore(Some(stored));
    assert_eq!(s.selected_theme(), ThemeOption::SolarizedDark);
    assert_eq!(s.selected_font(), FontOption::Serif);
    assert_eq!(s.font_size(), 30);
}

#[test]
fn option_labels() {
    let themes: Vec<&str> = ThemeOption::all().into_iter().map(|t| t.label()).collect();
    assert_eq!(themes, vec!["Kanagawa Dragon", "Nord", "Solarized Light", "Solarized Dark"]);
    let fonts: Vec<&str> = FontOption::all().into_iter().map(|f| f.label()).collect();
    assert_eq!(fonts, vec!["Sans", "Serif", "Monospace"]);
}
