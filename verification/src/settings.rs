//! What the user can choose: the voice, the theme and the font, and how
//! those choices are written to and read from the settings file.
use vstd::prelude::*;
use vstd::string::*;

use crate::text::same_text;

verus! {

/// A voice that reads the assistant's answers aloud; `NoVoice` (saved as "None") reads them with the local speech synthesizer.
#[derive(Clone, Copy, Debug, PartialEq, Eq, Structural)]
pub enum Voices {
    Alloy,
    Echo,
    Fable,
    Onyx,
    Nova,
    Shimmer,
    NoVoice,
}

/// The name of a voice, as it is shown, sent and saved.
pub open spec fn voice_name(v: Voices) -> Seq<char> {
    match v {
        Voices::Alloy => "Alloy"@,
        Voices::Echo => "Echo"@,
        Voices::Fable => "Fable"@,
        Voices::Onyx => "Onyx"@,
        Voices::Nova => "Nova"@,
        Voices::Shimmer => "Shimmer"@,
        Voices::NoVoice => "None"@,
    }
}

/// The voice that a saved name stands for, if any.
pub open spec fn voice_from_name(s: Seq<char>) -> Option<Voices> {
    if s == "Alloy"@ {
        Some(Voices::Alloy)
    } else if s == "Echo"@ {
        Some(Voices::Echo)
    } else if s == "Fable"@ {
        Some(Voices::Fable)
    } else if s == "Onyx"@ {
        Some(Voices::Onyx)
    } else if s == "Nova"@ {
        Some(Voices::Nova)
    } else if s == "Shimmer"@ {
        Some(Voices::Shimmer)
    } else if s == "None"@ {
        Some(Voices::NoVoice)
    } else {
        None
    }
}

impl Voices {
    /// The name of the voice.
    pub fn to_string(&self) -> (s: String)
        ensures
            s@ == voice_name(*self),
    {
        proof {
            reveal_strlit("Alloy");
            reveal_strlit("Echo");
            reveal_strlit("Fable");
            reveal_strlit("Onyx");
            reveal_strlit("Nova");
            reveal_strlit("Shimmer");
            reveal_strlit("None");
        }
        match self {
            Voices::Alloy => "Alloy".to_owned(),
            Voices::Echo => "Echo".to_owned(),
            Voices::Fable => "Fable".to_owned(),
            Voices::Onyx => "Onyx".to_owned(),
            Voices::Nova => "Nova".to_owned(),
            Voices::Shimmer => "Shimmer".to_owned(),
            Voices::NoVoice => "None".to_owned(),
        }
    }

    /// The voice that `name` stands for, if any.
    pub fn from_name(name: &str) -> (r: Option<Voices>)
        ensures
            r == voice_from_name(name@),
    {
        if same_text(name, "Alloy") {
            return Some(Voices::Alloy);
        }
        if same_text(name, "Echo") {
            return Some(Voices::Echo);
        }
        if same_text(name, "Fable") {
            return Some(Voices::Fable);
        }
        if same_text(name, "Onyx") {
            return Some(Voices::Onyx);
        }
        if same_text(name, "Nova") {
            return Some(Voices::Nova);
        }
        if same_text(name, "Shimmer") {
            return Some(Voices::Shimmer);
        }
        if same_text(name, "None") {
            return Some(Voices::NoVoice);
        }
        None
    }

    /// Every voice, in the order in which they are offered.
    pub fn all() -> (v: Vec<Voices>)
        ensures
            v@ == seq![Voices::Alloy, Voices::Echo, Voices::Fable, Voices::Onyx, Voices::Nova, Voices::Shimmer, Voices::NoVoice],
    {
        let mut v: Vec<Voices> = Vec::new();
        v.push(Voices::Alloy);
        v.push(Voices::Echo);
        v.push(Voices::Fable);
        v.push(Voices::Onyx);
        v.push(Voices::Nova);
        v.push(Voices::Shimmer);
        v.push(Voices::NoVoice);
        v
    }

    /// Whether the voice is the local speech synthesizer rather than the
    /// speech service.
    pub fn uses_local_speech(&self) -> (r: bool)
        ensures
            r == (*self == Voices::NoVoice),
    {
        match self {
            Voices::NoVoice => true,
            _ => false,
        }
    }
}

/// The lengths of the names that `voice_from_name` tells apart, and a character
/// that differs between any two of the same length.
proof fn lemma_voice_name_facts()
    ensures
        "Alloy"@.len() == 5,
        "Echo"@.len() == 4,
        "Fable"@.len() == 5,
        "Onyx"@.len() == 4,
        "Nova"@.len() == 4,
        "Shimmer"@.len() == 7,
        "None"@.len() == 4,
        "Fable"@[0] != "Alloy"@[0],
        "Onyx"@[0] != "Echo"@[0],
        "Nova"@[0] != "Echo"@[0],
        "Nova"@[0] != "Onyx"@[0],
        "None"@[0] != "Echo"@[0],
        "None"@[0] != "Onyx"@[0],
        "None"@[2] != "Nova"@[2],
{
    broadcast use vstd::string::group_string_axioms;
    reveal_strlit("Alloy");
    reveal_strlit("Echo");
    reveal_strlit("Fable");
    reveal_strlit("Onyx");
    reveal_strlit("Nova");
    reveal_strlit("Shimmer");
    reveal_strlit("None");
}

/// A saved voice reads back as itself.
pub proof fn lemma_voice_name_round_trip(v: Voices)
    ensures
        voice_from_name(voice_name(v)) == Some(v),
{
    lemma_voice_name_facts();
}

/// The font kinds that the user can pick for the conversation.
#[derive(Clone, Copy, Debug, PartialEq, Eq, Structural)]
pub enum Fonts {
    Serif,
    Monospace,
}

/// The name of a font kind, as it is shown and saved.
pub open spec fn font_name(v: Fonts) -> Seq<char> {
    match v {
        Fonts::Serif => "Serif"@,
        Fonts::Monospace => "Monospace"@,
    }
}

/// The font kind that a saved name stands for, if any.
pub open spec fn font_from_name(s: Seq<char>) -> Option<Fonts> {
    if s == "Serif"@ {
        Some(Fonts::Serif)
    } else if s == "Monospace"@ {
        Some(Fonts::Monospace)
    } else {
        None
    }
}

/// A font family of the interface; `Named` is a family chosen by its name.
#[derive(Clone, Copy, Debug, PartialEq, Eq, Structural)]
pub enum FontFamily {
    Serif,
    SansSerif,
    Cursive,
    Fantasy,
    Monospace,
    Named,
}

/// The name under which a family is saved (`Named` is saved as "None").
pub open spec fn family_name(v: FontFamily) -> Seq<char> {
    match v {
        FontFamily::Serif => "Serif"@,
        FontFamily::SansSerif => "SansSerif"@,
        FontFamily::Cursive => "Cursive"@,
        FontFamily::Fantasy => "Fantasy"@,
        FontFamily::Monospace => "Monospace"@,
        FontFamily::Named => "None"@,
    }
}

/// The family that a saved name stands for; any other name gives `Serif`.
pub open spec fn family_from_name(s: Seq<char>) -> FontFamily {
    if s == "Serif"@ {
        FontFamily::Serif
    } else if s == "SansSerif"@ {
        FontFamily::SansSerif
    } else if s == "Cursive"@ {
        FontFamily::Cursive
    } else if s == "Fantasy"@ {
        FontFamily::Fantasy
    } else if s == "Monospace"@ {
        FontFamily::Monospace
    } else {
        FontFamily::Serif
    }
}

/// The family that a font kind is drawn with.
pub open spec fn font_family(f: Fonts) -> FontFamily {
    match f {
        Fonts::Serif => FontFamily::Serif,
        Fonts::Monospace => FontFamily::Monospace,
    }
}

impl Fonts {
    /// The name of the font kind.
    pub fn family_to_string(&self) -> (s: String)
        ensures
            s@ == font_name(*self),
    {
        proof {
            reveal_strlit("Serif");
            reveal_strlit("Monospace");
        }
        match self {
            Fonts::Serif => "Serif".to_owned(),
            Fonts::Monospace => "Monospace".to_owned(),
        }
    }

    /// The font kind that `name` stands for, if any.
    pub fn from_name(name: &str) -> (r: Option<Fonts>)
        ensures
            r == font_from_name(name@),
    {
        if same_text(name, "Serif") {
            return Some(Fonts::Serif);
        }
        if same_text(name, "Monospace") {
            return Some(Fonts::Monospace);
        }
        None
    }

    /// The family that the font kind is drawn with.
    pub fn convert_to_family(&self) -> (f: FontFamily)
        ensures
            f == font_family(*self),
    {
        match self {
            Fonts::Serif => FontFamily::Serif,
            Fonts::Monospace => FontFamily::Monospace,
        }
    }

    /// Every font kind, in the order in which they are offered.
    pub fn all() -> (v: Vec<Fonts>)
        ensures
            v@ == seq![Fonts::Serif, Fonts::Monospace],
    {
        let mut v: Vec<Fonts> = Vec::new();
        v.push(Fonts::Serif);
        v.push(Fonts::Monospace);
        v
    }
}

/// The lengths of the names that `font_from_name` tells apart, and a character
/// that differs between any two of the same length.
proof fn lemma_font_name_facts()
    ensures
        "Serif"@.len() == 5,
        "Monospace"@.len() == 9,
{
    broadcast use vstd::string::group_string_axioms;
    reveal_strlit("Serif");
    reveal_strlit("Monospace");
}

/// A saved font kind reads back as itself.
pub proof fn lemma_font_name_round_trip(v: Fonts)
    ensures
        font_from_name(font_name(v)) == Some(v),
{
    lemma_font_name_facts();
}

impl FontFamily {
    /// The name under which the family is saved.
    pub fn name(&self) -> (s: String)
        ensures
            s@ == family_name(*self),
    {
        proof {
            reveal_strlit("Serif");
            reveal_strlit("SansSerif");
            reveal_strlit("Cursive");
            reveal_strlit("Fantasy");
            reveal_strlit("Monospace");
            reveal_strlit("None");
        }
        match self {
            FontFamily::Serif => "Serif".to_owned(),
            FontFamily::SansSerif => "SansSerif".to_owned(),
            FontFamily::Cursive => "Cursive".to_owned(),
            FontFamily::Fantasy => "Fantasy".to_owned(),
            FontFamily::Monospace => "Monospace".to_owned(),
            FontFamily::Named => "None".to_owned(),
        }
    }

    /// The family that `name` stands for; any other name gives `Serif`.
    pub fn from_name(name: &str) -> (r: FontFamily)
        ensures
            r == family_from_name(name@),
    {
        if same_text(name, "Serif") {
            return FontFamily::Serif;
        }
        if same_text(name, "SansSerif") {
            return FontFamily::SansSerif;
        }
        if same_text(name, "Cursive") {
            return FontFamily::Cursive;
        }
        if same_text(name, "Fantasy") {
            return FontFamily::Fantasy;
        }
        if same_text(name, "Monospace") {
            return FontFamily::Monospace;
        }
        FontFamily::Serif
    }

}

/// The lengths of the names that `family_from_name` tells apart, and a character
/// that differs between any two of the same length.
proof fn lemma_family_name_facts()
    ensures
        "Serif"@.len() == 5,
        "SansSerif"@.len() == 9,
        "Cursive"@.len() == 7,
        "Fantasy"@.len() == 7,
        "Monospace"@.len() == 9,
        "Fantasy"@[0] != "Cursive"@[0],
        "Monospace"@[0] != "SansSerif"@[0],
{
    broadcast use vstd::string::group_string_axioms;
    reveal_strlit("Serif");
    reveal_strlit("SansSerif");
    reveal_strlit("Cursive");
    reveal_strlit("Fantasy");
    reveal_strlit("Monospace");
}

/// A saved family other than a named one reads back as itself.
pub proof fn lemma_family_name_round_trip(v: FontFamily)
    requires
        v != FontFamily::Named,
    ensures
        family_from_name(family_name(v)) == v,
{
    lemma_family_name_facts();
}

/// A colour theme of the interface; `Custom` is one built by hand.
#[derive(Clone, Copy, Debug, PartialEq, Eq, Structural)]
pub enum ThemeChoice {
    Light,
    Dark,
    Dracula,
    Nord,
    SolarizedLight,
    SolarizedDark,
    GruvboxLight,
    GruvboxDark,
    CatppuccinLatte,
    CatppuccinFrappe,
    CatppuccinMacchiato,
    CatppuccinMocha,
    TokyoNight,
    TokyoNightStorm,
    TokyoNightLight,
    KanagawaWave,
    KanagawaDragon,
    KanagawaLotus,
    Moonfly,
    Nightfly,
    Oxocarbon,
    Ferra,
    Custom,
}

/// The name under which a theme is saved.
pub open spec fn theme_name(v: ThemeChoice) -> Seq<char> {
    match v {
        ThemeChoice::Light => "Light"@,
        ThemeChoice::Dark => "Dark"@,
        ThemeChoice::Dracula => "Dracula"@,
        ThemeChoice::Nord => "Nord"@,
        ThemeChoice::SolarizedLight => "SolarizedLight"@,
        ThemeChoice::SolarizedDark => "SolarizedDark"@,
        ThemeChoice::GruvboxLight => "GruvboxLight"@,
        ThemeChoice::GruvboxDark => "GruvboxDark"@,
        ThemeChoice::CatppuccinLatte => "CatppuccinLatte"@,
        ThemeChoice::CatppuccinFrappe => "CatppuccinFrappe"@,
        ThemeChoice::CatppuccinMacchiato => "CatppuccinMacchiato"@,
        ThemeChoice::CatppuccinMocha => "CatppuccinMocha"@,
        ThemeChoice::TokyoNight => "TokyoNight"@,
        ThemeChoice::TokyoNightStorm => "TokyoNightStorm"@,
        ThemeChoice::TokyoNightLight => "TokyoNightLight"@,
        ThemeChoice::KanagawaWave => "KanagawaWave"@,
        ThemeChoice::KanagawaDragon => "KanagawaDragon"@,
        ThemeChoice::KanagawaLotus => "KanagawaLotus"@,
        ThemeChoice::Moonfly => "Moonfly"@,
        ThemeChoice::Nightfly => "Nightfly"@,
        ThemeChoice::Oxocarbon => "Oxocarbon"@,
        ThemeChoice::Ferra => "Ferra"@,
        ThemeChoice::Custom => "Custom"@,
    }
}

/// The theme that a saved name stands for; any other name, "Custom" among them, gives `GruvboxDark`.
pub open spec fn theme_from_name(s: Seq<char>) -> ThemeChoice {
    if s == "Light"@ {
        ThemeChoice::Light
    } else if s == "Dark"@ {
        ThemeChoice::Dark
    } else if s == "Dracula"@ {
        ThemeChoice::Dracula
    } else if s == "Nord"@ {
        ThemeChoice::Nord
    } else if s == "SolarizedLight"@ {
        ThemeChoice::SolarizedLight
    } else if s == "SolarizedDark"@ {
        ThemeChoice::SolarizedDark
    } else if s == "GruvboxLight"@ {
        ThemeChoice::GruvboxLight
    } else if s == "GruvboxDark"@ {
        ThemeChoice::GruvboxDark
    } else if s == "CatppuccinLatte"@ {
        ThemeChoice::CatppuccinLatte
    } else if s == "CatppuccinFrappe"@ {
        ThemeChoice::CatppuccinFrappe
    } else if s == "CatppuccinMacchiato"@ {
        ThemeChoice::CatppuccinMacchiato
    } else if s == "CatppuccinMocha"@ {
        ThemeChoice::CatppuccinMocha
    } else if s == "TokyoNight"@ {
        ThemeChoice::TokyoNight
    } else if s == "TokyoNightStorm"@ {
        ThemeChoice::TokyoNightStorm
    } else if s == "TokyoNightLight"@ {
        ThemeChoice::TokyoNightLight
    } else if s == "KanagawaWave"@ {
        ThemeChoice::KanagawaWave
    } else if s == "KanagawaDragon"@ {
        ThemeChoice::KanagawaDragon
    } else if s == "KanagawaLotus"@ {
        ThemeChoice::KanagawaLotus
    } else if s == "Moonfly"@ {
        ThemeChoice::Moonfly
    } else if s == "Nightfly"@ {
        ThemeChoice::Nightfly
    } else if s == "Oxocarbon"@ {
        ThemeChoice::Oxocarbon
    } else if s == "Ferra"@ {
        ThemeChoice::Ferra
    } else {
        ThemeChoice::GruvboxDark
    }
}

impl ThemeChoice {
    /// The name under which the theme is saved.
    pub fn name(&self) -> (s: String)
        ensures
            s@ == theme_name(*self),
    {
        proof {
            reveal_strlit("Light");
            reveal_strlit("Dark");
            reveal_strlit("Dracula");
            reveal_strlit("Nord");
            reveal_strlit("SolarizedLight");
            reveal_strlit("SolarizedDark");
            reveal_strlit("GruvboxLight");
            reveal_strlit("GruvboxDark");
            reveal_strlit("CatppuccinLatte");
            reveal_strlit("CatppuccinFrappe");
            reveal_strlit("CatppuccinMacchiato");
            reveal_strlit("CatppuccinMocha");
            reveal_strlit("TokyoNight");
            reveal_strlit("TokyoNightStorm");
            reveal_strlit("TokyoNightLight");
            reveal_strlit("KanagawaWave");
            reveal_strlit("KanagawaDragon");
            reveal_strlit("KanagawaLotus");
            reveal_strlit("Moonfly");
            reveal_strlit("Nightfly");
            reveal_strlit("Oxocarbon");
            reveal_strlit("Ferra");
            reveal_strlit("Custom");
        }
        match self {
            ThemeChoice::Light => "Light".to_owned(),
            ThemeChoice::Dark => "Dark".to_owned(),
            ThemeChoice::Dracula => "Dracula".to_owned(),
            ThemeChoice::Nord => "Nord".to_owned(),
            ThemeChoice::SolarizedLight => "SolarizedLight".to_owned(),
            ThemeChoice::SolarizedDark => "SolarizedDark".to_owned(),
            ThemeChoice::GruvboxLight => "GruvboxLight".to_owned(),
            ThemeChoice::GruvboxDark => "GruvboxDark".to_owned(),
            ThemeChoice::CatppuccinLatte => "CatppuccinLatte".to_owned(),
            ThemeChoice::CatppuccinFrappe => "CatppuccinFrappe".to_owned(),
            ThemeChoice::CatppuccinMacchiato => "CatppuccinMacchiato".to_owned(),
            ThemeChoice::CatppuccinMocha => "CatppuccinMocha".to_owned(),
            ThemeChoice::TokyoNight => "TokyoNight".to_owned(),
            ThemeChoice::TokyoNightStorm => "TokyoNightStorm".to_owned(),
            ThemeChoice::TokyoNightLight => "TokyoNightLight".to_owned(),
            ThemeChoice::KanagawaWave => "KanagawaWave".to_owned(),
            ThemeChoice::KanagawaDragon => "KanagawaDragon".to_owned(),
            ThemeChoice::KanagawaLotus => "KanagawaLotus".to_owned(),
            ThemeChoice::Moonfly => "Moonfly".to_owned(),
            ThemeChoice::Nightfly => "Nightfly".to_owned(),
            ThemeChoice::Oxocarbon => "Oxocarbon".to_owned(),
            ThemeChoice::Ferra => "Ferra".to_owned(),
            ThemeChoice::Custom => "Custom".to_owned(),
        }
    }

    /// The theme that `name` stands for; any other name gives `GruvboxDark`.
    pub fn from_name(name: &str) -> (r: ThemeChoice)
        ensures
            r == theme_from_name(name@),
    {
        if same_text(name, "Light") {
            return ThemeChoice::Light;
        }
        if same_text(name, "Dark") {
            return ThemeChoice::Dark;
        }
        if same_text(name, "Dracula") {
            return ThemeChoice::Dracula;
        }
        if same_text(name, "Nord") {
            return ThemeChoice::Nord;
        }
        if same_text(name, "SolarizedLight") {
            return ThemeChoice::SolarizedLight;
        }
        if same_text(name, "SolarizedDark") {
            return ThemeChoice::SolarizedDark;
        }
        if same_text(name, "GruvboxLight") {
            return ThemeChoice::GruvboxLight;
        }
        if same_text(name, "GruvboxDark") {
            return ThemeChoice::GruvboxDark;
        }
        if same_text(name, "CatppuccinLatte") {
            return ThemeChoice::CatppuccinLatte;
        }
        if same_text(name, "CatppuccinFrappe") {
            return ThemeChoice::CatppuccinFrappe;
        }
        if same_text(name, "CatppuccinMacchiato") {
            return ThemeChoice::CatppuccinMacchiato;
        }
        if same_text(name, "CatppuccinMocha") {
            return ThemeChoice::CatppuccinMocha;
        }
        if same_text(name, "TokyoNight") {
            return ThemeChoice::TokyoNight;
        }
        if same_text(name, "TokyoNightStorm") {
            return ThemeChoice::TokyoNightStorm;
        }
        if same_text(name, "TokyoNightLight") {
            return ThemeChoice::TokyoNightLight;
        }
        if same_text(name, "KanagawaWave") {
            return ThemeChoice::KanagawaWave;
        }
        if same_text(name, "KanagawaDragon") {
            return ThemeChoice::KanagawaDragon;
        }
        if same_text(name, "KanagawaLotus") {
            return ThemeChoice::KanagawaLotus;
        }
        if same_text(name, "Moonfly") {
            return ThemeChoice::Moonfly;
        }
        if same_text(name, "Nightfly") {
            return ThemeChoice::Nightfly;
        }
        if same_text(name, "Oxocarbon") {
            return ThemeChoice::Oxocarbon;
        }
        if same_text(name, "Ferra") {
            return ThemeChoice::Ferra;
        }
        ThemeChoice::GruvboxDark
    }

}

/// The lengths of the names that `theme_from_name` tells apart, and a character
/// that differs between any two of the same length.
proof fn lemma_theme_name_facts()
    ensures
        "Light"@.len() == 5,
        "Dark"@.len() == 4,
        "Dracula"@.len() == 7,
        "Nord"@.len() == 4,
        "SolarizedLight"@.len() == 14,
        "SolarizedDark"@.len() == 13,
        "GruvboxLight"@.len() == 12,
        "GruvboxDark"@.len() == 11,
        "CatppuccinLatte"@.len() == 15,
        "CatppuccinFrappe"@.len() == 16,
        "CatppuccinMacchiato"@.len() == 19,
        "CatppuccinMocha"@.len() == 15,
        "TokyoNight"@.len() == 10,
        "TokyoNightStorm"@.len() == 15,
        "TokyoNightLight"@.len() == 15,
        "KanagawaWave"@.len() == 12,
        "KanagawaDragon"@.len() == 14,
        "KanagawaLotus"@.len() == 13,
        "Moonfly"@.len() == 7,
        "Nightfly"@.len() == 8,
        "Oxocarbon"@.len() == 9,
        "Ferra"@.len() == 5,
        "Nord"@[0] != "Dark"@[0],
        "CatppuccinMocha"@[10] != "CatppuccinLatte"@[10],
        "TokyoNightStorm"@[0] != "CatppuccinLatte"@[0],
        "TokyoNightStorm"@[0] != "CatppuccinMocha"@[0],
        "TokyoNightLight"@[0] != "CatppuccinLatte"@[0],
        "TokyoNightLight"@[0] != "CatppuccinMocha"@[0],
        "TokyoNightLight"@[10] != "TokyoNightStorm"@[10],
        "KanagawaWave"@[0] != "GruvboxLight"@[0],
        "KanagawaDragon"@[0] != "SolarizedLight"@[0],
        "KanagawaLotus"@[0] != "SolarizedDark"@[0],
        "Moonfly"@[0] != "Dracula"@[0],
        "Ferra"@[0] != "Light"@[0],
{
    broadcast use vstd::string::group_string_axioms;
    reveal_strlit("Light");
    reveal_strlit("Dark");
    reveal_strlit("Dracula");
    reveal_strlit("Nord");
    reveal_strlit("SolarizedLight");
    reveal_strlit("SolarizedDark");
    reveal_strlit("GruvboxLight");
    reveal_strlit("GruvboxDark");
    reveal_strlit("CatppuccinLatte");
    reveal_strlit("CatppuccinFrappe");
    reveal_strlit("CatppuccinMacchiato");
    reveal_strlit("CatppuccinMocha");
    reveal_strlit("TokyoNight");
    reveal_strlit("TokyoNightStorm");
    reveal_strlit("TokyoNightLight");
    reveal_strlit("KanagawaWave");
    reveal_strlit("KanagawaDragon");
    reveal_strlit("KanagawaLotus");
    reveal_strlit("Moonfly");
    reveal_strlit("Nightfly");
    reveal_strlit("Oxocarbon");
    reveal_strlit("Ferra");
}

/// A saved theme other than a custom one reads back as itself.
pub proof fn lemma_theme_name_round_trip(v: ThemeChoice)
    requires
        v != ThemeChoice::Custom,
    ensures
        theme_from_name(theme_name(v)) == v,
{
    lemma_theme_name_facts();
}

/// The user's choices of appearance and voice.
#[derive(Clone, Copy, Debug, PartialEq, Eq, Structural)]
pub struct Settings {
    pub theme: ThemeChoice,
    pub voice: Voices,
    pub text_font: Fonts,
    pub text_family: FontFamily,
}

/// The settings used when none were saved.
pub fn default_settings() -> (s: Settings)
    ensures
        s == (Settings {
            theme: ThemeChoice::GruvboxDark,
            voice: Voices::Alloy,
            text_font: Fonts::Serif,
            text_family: FontFamily::SansSerif,
        }),
{
    Settings {
        theme: ThemeChoice::GruvboxDark,
        voice: Voices::Alloy,
        text_font: Fonts::Serif,
        text_family: FontFamily::SansSerif,
    }
}

/// The settings as the settings file holds them: one name for each choice.
#[derive(Debug)]
pub struct SettingsRecord {
    pub theme: String,
    pub voice: String,
    pub text_font: String,
    pub text_family: String,
}

/// The names under which `data` is written.
pub fn save_settings(data: &Settings) -> (r: SettingsRecord)
    ensures
        r.theme@ == theme_name(data.theme),
        r.voice@ == voice_name(data.voice),
        r.text_font@ == font_name(data.text_font),
        r.text_family@ == family_name(data.text_family),
{
    SettingsRecord {
        theme: data.theme.name(),
        voice: data.voice.to_string(),
        text_font: data.text_font.family_to_string(),
        text_family: data.text_family.name(),
    }
}

/// The settings that four saved names stand for.
pub open spec fn settings_from_names(
    theme: Seq<char>,
    voice: Seq<char>,
    text_font: Seq<char>,
    text_family: Seq<char>,
) -> Settings {
    Settings {
        theme: theme_from_name(theme),
        voice: voice_from_name(voice)->Some_0,
        text_font: font_from_name(text_font)->Some_0,
        text_family: family_from_name(text_family),
    }
}

/// Whether a record names a known voice and a known font kind; other names
/// are not read.
pub open spec fn readable_record(record: &SettingsRecord) -> bool {
    &&& voice_from_name(record.voice@) is Some
    &&& font_from_name(record.text_font@) is Some
}

/// The settings that a saved record stands for.
pub fn read_settings(record: &SettingsRecord) -> (s: Settings)
    requires
        readable_record(record),
    ensures
        s == settings_from_names(record.theme@, record.voice@, record.text_font@, record.text_family@),
{
    let voice = match Voices::from_name(record.voice.as_str()) {
        Some(v) => v,
        None => Voices::Alloy,
    };
    let text_font = match Fonts::from_name(record.text_font.as_str()) {
        Some(f) => f,
        None => Fonts::Serif,
    };
    Settings {
        theme: ThemeChoice::from_name(record.theme.as_str()),
        voice,
        text_font,
        text_family: FontFamily::from_name(record.text_family.as_str()),
    }
}

/// Saved settings read back as themselves, unless they hold a custom theme
/// or a family chosen by its name.
pub proof fn lemma_settings_round_trip(s: Settings)
    requires
        s.theme != ThemeChoice::Custom,
        s.text_family != FontFamily::Named,
    ensures
        settings_from_names(
            theme_name(s.theme),
            voice_name(s.voice),
            font_name(s.text_font),
            family_name(s.text_family),
        ) == s,
{
    lemma_theme_name_round_trip(s.theme);
    lemma_voice_name_round_trip(s.voice);
    lemma_font_name_round_trip(s.text_font);
    lemma_family_name_round_trip(s.text_family);
}

/// Each voice is shown, sent and saved under its own name, and the name reads back as that voice.
pub proof fn lemma_voice_names_are_their_own()
    ensures
        voice_name(Voices::Alloy) == "Alloy"@,
        voice_name(Voices::Echo) == "Echo"@,
        voice_name(Voices::Fable) == "Fable"@,
        voice_name(Voices::Onyx) == "Onyx"@,
        voice_name(Voices::Nova) == "Nova"@,
        voice_name(Voices::Shimmer) == "Shimmer"@,
        voice_name(Voices::NoVoice) == "None"@,
        voice_from_name("Alloy"@) == Some(Voices::Alloy),
        voice_from_name("Echo"@) == Some(Voices::Echo),
        voice_from_name("Fable"@) == Some(Voices::Fable),
        voice_from_name("Onyx"@) == Some(Voices::Onyx),
        voice_from_name("Nova"@) == Some(Voices::Nova),
        voice_from_name("Shimmer"@) == Some(Voices::Shimmer),
        voice_from_name("None"@) == Some(Voices::NoVoice),
{
    lemma_voice_name_facts();
}

/// Each font kind is saved under its own name, and the name reads back as that font kind.
pub proof fn lemma_font_names_are_their_own()
    ensures
        font_name(Fonts::Serif) == "Serif"@,
        font_name(Fonts::Monospace) == "Monospace"@,
        font_from_name("Serif"@) == Some(Fonts::Serif),
        font_from_name("Monospace"@) == Some(Fonts::Monospace),
{
    lemma_font_name_facts();
}

/// Each family is saved under its own name (a named family as "None"), and each name reads back as its family; "None" reads as `Serif`.
pub proof fn lemma_family_names_are_their_own()
    ensures
        family_name(FontFamily::Serif) == "Serif"@,
        family_name(FontFamily::SansSerif) == "SansSerif"@,
        family_name(FontFamily::Cursive) == "Cursive"@,
        family_name(FontFamily::Fantasy) == "Fantasy"@,
        family_name(FontFamily::Monospace) == "Monospace"@,
        family_name(FontFamily::Named) == "None"@,
        family_from_name("Serif"@) == FontFamily::Serif,
        family_from_name("SansSerif"@) == FontFamily::SansSerif,
        family_from_name("Cursive"@) == FontFamily::Cursive,
        family_from_name("Fantasy"@) == FontFamily::Fantasy,
        family_from_name("Monospace"@) == FontFamily::Monospace,
        family_from_name("None"@) == FontFamily::Serif,
{
    lemma_family_name_facts();
    broadcast use vstd::string::group_string_axioms;
    reveal_strlit("None");
    assert("None"@.len() == 4);
}

/// Each theme is saved under its own name, and each name reads back as its theme; "Custom" reads as `GruvboxDark`.
pub proof fn lemma_theme_names_are_their_own()
    ensures
        theme_name(ThemeChoice::Light) == "Light"@,
        theme_name(ThemeChoice::Dark) == "Dark"@,
        theme_name(ThemeChoice::Dracula) == "Dracula"@,
        theme_name(ThemeChoice::Nord) == "Nord"@,
        theme_name(ThemeChoice::SolarizedLight) == "SolarizedLight"@,
        theme_name(ThemeChoice::SolarizedDark) == "SolarizedDark"@,
        theme_name(ThemeChoice::GruvboxLight) == "GruvboxLight"@,
        theme_name(ThemeChoice::GruvboxDark) == "GruvboxDark"@,
        theme_name(ThemeChoice::CatppuccinLatte) == "CatppuccinLatte"@,
        theme_name(ThemeChoice::CatppuccinFrappe) == "CatppuccinFrappe"@,
        theme_name(ThemeChoice::CatppuccinMacchiato) == "CatppuccinMacchiato"@,
        theme_name(ThemeChoice::CatppuccinMocha) == "CatppuccinMocha"@,
        theme_name(ThemeChoice::TokyoNight) == "TokyoNight"@,
        theme_name(ThemeChoice::TokyoNightStorm) == "TokyoNightStorm"@,
        theme_name(ThemeChoice::TokyoNightLight) == "TokyoNightLight"@,
        theme_name(ThemeChoice::KanagawaWave) == "KanagawaWave"@,
        theme_name(ThemeChoice::KanagawaDragon) == "KanagawaDragon"@,
        theme_name(ThemeChoice::KanagawaLotus) == "KanagawaLotus"@,
        theme_name(ThemeChoice::Moonfly) == "Moonfly"@,
        theme_name(ThemeChoice::Nightfly) == "Nightfly"@,
        theme_name(ThemeChoice::Oxocarbon) == "Oxocarbon"@,
        theme_name(ThemeChoice::Ferra) == "Ferra"@,
        theme_name(ThemeChoice::Custom) == "Custom"@,
        theme_from_name("Light"@) == ThemeChoice::Light,
        theme_from_name("Dark"@) == ThemeChoice::Dark,
        theme_from_name("Dracula"@) == ThemeChoice::Dracula,
        theme_from_name("Nord"@) == ThemeChoice::Nord,
        theme_from_name("SolarizedLight"@) == ThemeChoice::SolarizedLight,
        theme_from_name("SolarizedDark"@) == ThemeChoice::SolarizedDark,
        theme_from_name("GruvboxLight"@) == ThemeChoice::GruvboxLight,
        theme_from_name("GruvboxDark"@) == ThemeChoice::GruvboxDark,
        theme_from_name("CatppuccinLatte"@) == ThemeChoice::CatppuccinLatte,
        theme_from_name("CatppuccinFrappe"@) == ThemeChoice::CatppuccinFrappe,
        theme_from_name("CatppuccinMacchiato"@) == ThemeChoice::CatppuccinMacchiato,
        theme_from_name("CatppuccinMocha"@) == ThemeChoice::CatppuccinMocha,
        theme_from_name("TokyoNight"@) == ThemeChoice::TokyoNight,
        theme_from_name("TokyoNightStorm"@) == ThemeChoice::TokyoNightStorm,
        theme_from_name("TokyoNightLight"@) == ThemeChoice::TokyoNightLight,
        theme_from_name("KanagawaWave"@) == ThemeChoice::KanagawaWave,
        theme_from_name("KanagawaDragon"@) == ThemeChoice::KanagawaDragon,
        theme_from_name("KanagawaLotus"@) == ThemeChoice::KanagawaLotus,
        theme_from_name("Moonfly"@) == ThemeChoice::Moonfly,
        theme_from_name("Nightfly"@) == ThemeChoice::Nightfly,
        theme_from_name("Oxocarbon"@) == ThemeChoice::Oxocarbon,
        theme_from_name("Ferra"@) == ThemeChoice::Ferra,
        theme_from_name("Custom"@) == ThemeChoice::GruvboxDark,
{
    lemma_theme_name_facts();
    broadcast use vstd::string::group_string_axioms;
    reveal_strlit("Custom");
    assert("Custom"@.len() == 6);
}

} // verus!
