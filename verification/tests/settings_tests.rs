use kiya::settings::{
    default_settings, read_settings, save_settings, FontFamily, Fonts, Settings, SettingsRecord,
    ThemeChoice, Voices,
};

#[test]
fn voice_names() {
    let names: Vec<String> = Voices::all().iter().map(|v| v.to_string()).collect();
    assert_eq!(names, vec!["Alloy", "Echo", "Fable", "Onyx", "Nova", "Shimmer", "None"]);
}

#[test]
fn voice_names_read_back() {
    for v in Voices::all() {
        assert_eq!(Voices::from_name(&v.to_string()), Some(v));
    }
    assert_eq!(Voices::from_name("alloy"), None);
    assert_eq!(Voices::from_name(""), None);
}

#[test]
fn only_no_voice_is_local() {
    for v in Voices::all() {
        assert_eq!(v.uses_local_speech(), v == Voices::NoVoice);
    }
}

#[test]
fn font_names_and_families() {
    assert_eq!(Fonts::Serif.family_to_string(), "Serif");
    assert_eq!(Fonts::Monospace.family_to_string(), "Monospace");
    assert_eq!(Fonts::Serif.convert_to_family(), FontFamily::Serif);
    assert_eq!(Fonts::Monospace.convert_to_family(), FontFamily::Monospace);
    assert_eq!(Fonts::all(), vec![Fonts::Serif, Fonts::Monospace]);
    assert_eq!(Fonts::from_name("Monospace"), Some(Fonts::Monospace));
    assert_eq!(Fonts::from_name("Cursive"), None);
}

#[test]
fn family_names() {
    assert_eq!(FontFamily::SansSerif.name(), "SansSerif");
    assert_eq!(FontFamily::Named.name(), "None");
    assert_eq!(FontFamily::from_name("Fantasy"), FontFamily::Fantasy);
    assert_eq!(FontFamily::from_name("None"), FontFamily::Serif);
    assert_eq!(FontFamily::from_name("whatever"), FontFamily::Serif);
}

#[test]
fn theme_names() {
    assert_eq!(ThemeChoice::CatppuccinMacchiato.name(), "CatppuccinMacchiato");
    assert_eq!(ThemeChoice::Custom.name(), "Custom");
    assert_eq!(ThemeChoice::from_name("TokyoNightStorm"), ThemeChoice::TokyoNightStorm);
    assert_eq!(ThemeChoice::from_name("Ferra"), ThemeChoice::Ferra);
    assert_eq!(ThemeChoice::from_name("Custom"), ThemeChoice::GruvboxDark);
    assert_eq!(ThemeChoice::from_name("light"), ThemeChoice::GruvboxDark);
}

#[test]
fn defaults() {
    let s = default_settings();
    assert_eq!(s.theme, ThemeChoice::GruvboxDark);
    assert_eq!(s.voice, Voices::Alloy);
    assert_eq!(s.text_font, Fonts::Serif);
    assert_eq!(s.text_family, FontFamily::SansSerif);
}

#[test]
fn saved_settings_read_back() {
    let s = Settings {
        theme: ThemeChoice::Nord,
        voice: Voices::Shimmer,
        text_font: Fonts::Monospace,
        text_family: FontFamily::Cursive,
    };
    let r = save_settings(&s);
    assert_eq!(r.theme, "Nord");
    assert_eq!(r.voice, "Shimmer");
    assert_eq!(r.text_font, "Monospace");
    assert_eq!(r.text_family, "Cursive");
    assert_eq!(read_settings(&r), s);
}

#[test]
fn custom_theme_and_named_family_read_back_as_defaults() {
    let s = Settings {
        theme: ThemeChoice::Custom,
        voice: Voices::NoVoice,
        text_font: Fonts::Serif,
        text_family: FontFamily::Named,
    };
    let back = read_settings(&save_settings(&s));
    assert_eq!(back.theme, ThemeChoice::GruvboxDark);
    assert_eq!(back.voice, Voices::NoVoice);
    assert_eq!(back.text_family, FontFamily::Serif);
}

#[test]
fn record_with_unknown_theme() {
    let r = SettingsRecord {
        theme: "Solarized".to_string(),
        voice: "Echo".to_string(),
        text_font: "Serif".to_string(),
        text_family: "Monospace".to_string(),
    };
    let s = read_settings(&r);
    assert_eq!(s.theme, ThemeChoice::GruvboxDark);
    assert_eq!(s.voice, Voices::Echo);
    assert_eq!(s.text_family, FontFamily::Monospace);
}
