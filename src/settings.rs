use vstd::prelude::*;

verus! {

/// The smallest font size that can be chosen.
pub const MIN_FONT_SIZE: u16 = 10;

/// The largest font size that can be chosen.
pub const MAX_FONT_SIZE: u16 = 48;

/// The colour theme of the application.
#[derive(Debug, Clone, Copy, PartialEq, Eq, Structural)]
pub enum ThemeOption {
    KanagawaDragon,
    Nord,
    SolarizedLight,
    SolarizedDark,
}

impl ThemeOption {
    pub open spec fn label_spec(self) -> Seq<char> {
        match self {
            ThemeOption::KanagawaDragon => "Kanagawa Dragon"@,
            ThemeOption::Nord => "Nord"@,
            ThemeOption::SolarizedLight => "Solarized Light"@,
            ThemeOption::SolarizedDark => "Solarized Dark"@,
        }
    }

    /// The name shown for the theme.
    pub fn label(self) -> (r: &'static str)
        ensures
            r@ == self.label_spec(),
    {
        match self {
            ThemeOption::KanagawaDragon => "Kanagawa Dragon",
            ThemeOption::Nord => "Nord",
            ThemeOption::SolarizedLight => "Solarized Light",
            ThemeOption::SolarizedDark => "Solarized Dark",
        }
    }

    /// Every theme, in the order of the picker.
    pub fn all() -> (r: Vec<ThemeOption>)
        ensures
            r@ == seq![
                ThemeOption::KanagawaDragon,
                ThemeOption::Nord,
                ThemeOption::SolarizedLight,
                ThemeOption::SolarizedDark,
            ],
    {
        let r = vec![
            ThemeOption::KanagawaDragon,
            ThemeOption::Nord,
            ThemeOption::SolarizedLight,
            ThemeOption::SolarizedDark,
        ];
        assert(r@ =~= seq![
            ThemeOption::KanagawaDragon,
            ThemeOption::Nord,
            ThemeOption::SolarizedLight,
            ThemeOption::SolarizedDark,
        ]);
        r
    }
}

/// The font family of the application.
#[derive(Debug, Clone, Copy, PartialEq, Eq, Structural)]
pub enum FontOption {
    Sans,
    Serif,
    Monospace,
}

impl FontOption {
    pub open spec fn label_spec(self) -> Seq<char> {
        match self {
            FontOption::Sans => "Sans"@,
            FontOption::Serif => "Serif"@,
            FontOption::Monospace => "Monospace"@,
        }
    }

    /// The name shown for the font.
    pub fn label(self) -> (r: &'static str)
        ensures
            r@ == self.label_spec(),
    {
        match self {
            FontOption::Sans => "Sans",
            FontOption::Serif => "Serif",
            FontOption::Monospace => "Monospace",
        }
    }

    /// Every font, in the order of the picker.
    pub fn all() -> (r: Vec<FontOption>)
        ensures
            r@ == seq![FontOption::Sans, FontOption::Serif, FontOption::Monospace],
    {
        let r = vec![FontOption::Sans, FontOption::Serif, FontOption::Monospace];
        assert(r@ =~= seq![FontOption::Sans, FontOption::Serif, FontOption::Monospace]);
        r
    }
}

/// What the settings screen is told.
#[derive(Debug, Clone, Copy)]
pub enum Message {
    ThemeChanged(ThemeOption),
    FontChanged(FontOption),
    FontSizeChanged(u16),
    Back,
}

/// The appearance preferences.
#[derive(Debug, Clone, Copy)]
pub struct SettingsState {
    selected_theme: ThemeOption,
    selected_font: FontOption,
    font_size: u16,
}

/// The abstract state of the preferences.
pub struct SettingsModel {
    pub theme: ThemeOption,
    pub font: FontOption,
    pub font_size: u16,
}

impl View for SettingsState {
    type V = SettingsModel;

    closed spec fn view(&self) -> SettingsModel {
        SettingsModel {
            theme: self.selected_theme,
            font: self.selected_font,
            font_size: self.font_size,
        }
    }
}

/// `size` brought into the range of allowed font sizes.
pub open spec fn clamp_size(size: u16) -> u16 {
    if size < MIN_FONT_SIZE {
        MIN_FONT_SIZE
    } else if size > MAX_FONT_SIZE {
        MAX_FONT_SIZE
    } else {
        size
    }
}

/// The preferences after a message.
pub open spec fn settings_step(m: SettingsModel, message: Message) -> SettingsModel {
    match message {
        Message::ThemeChanged(choice) => SettingsModel { theme: choice, ..m },
        Message::FontChanged(choice) => SettingsModel { font: choice, ..m },
        Message::FontSizeChanged(size) => SettingsModel { font_size: clamp_size(size), ..m },
        Message::Back => m,
    }
}

impl SettingsState {
    /// The preferences used when none were stored.
    pub fn default_values() -> (r: SettingsState)
        ensures
            r@ == SettingsState::default_values_spec(),
    {
        SettingsState {
            selected_theme: ThemeOption::KanagawaDragon,
            selected_font: FontOption::Sans,
            font_size: 16,
        }
    }

    /// Preferences as they were stored.
    pub fn from_parts(theme: ThemeOption, font: FontOption, font_size: u16) -> (r: SettingsState)
        ensures
            r@ == (SettingsModel { theme, font, font_size }),
    {
        SettingsState { selected_theme: theme, selected_font: font, font_size }
    }

    /// The preferences, or the defaults when nothing could be read.
    pub fn restore(loaded: Option<SettingsState>) -> (r: SettingsState)
        ensures
            match loaded {
                Some(s) => r@ == s@,
                None => r@ == SettingsState::default_values_spec(),
            },
    {
        match loaded {
            Some(s) => s,
            None => SettingsState::default_values(),
        }
    }

    pub open spec fn default_values_spec() -> SettingsModel {
        SettingsModel { theme: ThemeOption::KanagawaDragon, font: FontOption::Sans, font_size: 16 }
    }

    /// The name of the file the preferences are kept in.
    pub fn storage_path() -> (r: &'static str)
        ensures
            r@ == "settings.json"@,
    {
        "settings.json"
    }

    pub fn selected_theme(&self) -> (r: ThemeOption)
        ensures
            r == self@.theme,
    {
        self.selected_theme
    }

    pub fn selected_font(&self) -> (r: FontOption)
        ensures
            r == self@.font,
    {
        self.selected_font
    }

    pub fn font_size(&self) -> (r: u16)
        ensures
            r == self@.font_size,
    {
        self.font_size
    }

    /// Applies a message; returns whether the preferences changed and so are to be saved.
    pub fn update(&mut self, message: Message) -> (changed: bool)
        ensures
            final(self)@ == settings_step(old(self)@, message),
            changed == (final(self)@ != old(self)@),
    {
        let mut changed = false;
        match message {
            Message::ThemeChanged(choice) => {
                if self.selected_theme != choice {
                    self.selected_theme = choice;
                    changed = true;
                }
            },
            Message::FontChanged(choice) => {
                if self.selected_font != choice {
                    self.selected_font = choice;
                    changed = true;
                }
            },
            Message::FontSizeChanged(size) => {
                let clamped = if size < MIN_FONT_SIZE {
                    MIN_FONT_SIZE
                } else if size > MAX_FONT_SIZE {
                    MAX_FONT_SIZE
                } else {
                    size
                };
                if self.font_size != clamped {
                    self.font_size = clamped;
                    changed = true;
                }
            },
            Message::Back => {},
        }
        changed
    }
}

} // verus!
