//! The appearance record as the configuration file holds it, and the
//! numbers and colour it stands for.

use vstd::prelude::*;
use vstd::string::StringExecFns;
use crate::utils::{join, spec_join};

verus! {

/// The number for the colour scheme `default`.
pub const DEFAULT_COLOR: u32 = 0;

/// The number for the colour scheme `dark`.
pub const DARK_COLOR: u32 = 1;

/// The number for the colour scheme `light`.
pub const LIGHT_COLOR: u32 = 2;

/// The number for the contrast `default`.
pub const DEFAULT_CONTRAST: u32 = 0;

/// The number for the contrast `higher`.
pub const HIGHER_CONTRAST: u32 = 1;

/// The number for the motion setting `default`.
pub const DEFAULT_REDUCED_MOTION: u32 = 0;

/// The number for the motion setting `reduced`.
pub const REDUCED_REDUCED_MOTION: u32 = 1;

/// What a colour channel is divided by to give its share of full
/// intensity.
pub const CHANNEL_SCALE: u32 = 256;

/// A colour as three channels, each the numerator of a fraction of
/// `CHANNEL_SCALE`.
#[derive(Clone, Copy, Debug, PartialEq, Eq, Structural)]
pub struct AccentColor {
    /// The red channel.
    pub red: u8,
    /// The green channel.
    pub green: u8,
    /// The blue channel.
    pub blue: u8,
}

impl AccentColor {
    /// The colour with the given red, green and blue channels.
    pub fn new(rgb: [u8; 3]) -> (color: AccentColor)
        ensures
            color.red == rgb[0],
            color.green == rgb[1],
            color.blue == rgb[2],
    {
        AccentColor { red: rgb[0], green: rgb[1], blue: rgb[2] }
    }
}

/// Every channel of a colour is a fraction of the scale that is at least
/// zero and less than one.
pub proof fn lemma_channels_below_one(color: AccentColor)
    ensures
        0 <= color.red < CHANNEL_SCALE,
        0 <= color.green < CHANNEL_SCALE,
        0 <= color.blue < CHANNEL_SCALE,
{
}

/// The red, green, blue and alpha bytes that `csscolorparser` reads the CSS
/// colour `text` as; none where it reads no colour.
pub uninterp spec fn css_rgba8(text: Seq<char>) -> Option<(u8, u8, u8, u8)>;

/// Reads a CSS colour with `csscolorparser::parse` and rounds it to bytes
/// with `Color::to_rgba8`.  The contract only gives the outcome its name:
/// the same text always reads as the same colour.
#[verifier::external_body]
fn parse_css_color(text: &str) -> (channels: Option<(u8, u8, u8, u8)>)
    ensures
        channels == css_rgba8(text@),
{
    match csscolorparser::parse(text) {
        Ok(color) => {
            let bytes = color.to_rgba8();
            Some((bytes[0], bytes[1], bytes[2], bytes[3]))
        },
        Err(_) => None,
    }
}

/// The accent colour for what the parser made of the configured text:
/// the colour read, without its alpha; white where none was read.
pub open spec fn spec_accent(parsed: Option<(u8, u8, u8, u8)>) -> AccentColor {
    match parsed {
        Some((red, green, blue, _)) => AccentColor { red, green, blue },
        None => AccentColor { red: 255, green: 255, blue: 255 },
    }
}

/// The accent colour for what the parser made of the configured text.
pub fn accent_from(parsed: Option<(u8, u8, u8, u8)>) -> (color: AccentColor)
    ensures
        color == spec_accent(parsed),
{
    match parsed {
        Some((red, green, blue, _)) => AccentColor::new([red, green, blue]),
        None => AccentColor::new([255, 255, 255]),
    }
}

/// The path of the configuration file below the home directory `home`.
pub open spec fn spec_config_path(home: Seq<char>) -> Seq<char> {
    spec_join(
        spec_join(spec_join(home, ".config"@), "xdg-desktop-portal-luminous"@),
        "config.toml"@,
    )
}

/// The path of the configuration file: `config.toml` in
/// `.config/xdg-desktop-portal-luminous` below the home directory.  There
/// is none where the environment names no home.
pub fn config_path(home: Option<String>) -> (path: Option<String>)
    ensures
        path.is_some() == home.is_some(),
        home.is_some() ==> path.unwrap()@ == spec_config_path(home.unwrap()@),
{
    match home {
        Some(dir) => Some(
            join(join(join(dir, ".config"), "xdg-desktop-portal-luminous"), "config.toml"),
        ),
        None => None,
    }
}

/// The appearance settings as the configuration file words them.
#[derive(Debug)]
pub struct SettingsConfig {
    /// `default`, `dark` or `light`.
    pub color_scheme: String,
    /// A CSS colour.
    pub accent_color: String,
    /// `default` or `higher`.
    pub contrast: String,
    /// `default` or `reduced`.
    pub reduced_motion: String,
}

impl SettingsConfig {
    /// Every setting has one of the words that are allowed for it.
    pub open spec fn wf(&self) -> bool {
        &&& (self.color_scheme@ == "default"@ || self.color_scheme@ == "dark"@
            || self.color_scheme@ == "light"@)
        &&& (self.contrast@ == "default"@ || self.contrast@ == "higher"@)
        &&& (self.reduced_motion@ == "default"@ || self.reduced_motion@ == "reduced"@)
    }

    /// Tests whether every setting has one of the words that are allowed
    /// for it.
    pub fn is_valid(&self) -> (valid: bool)
        ensures
            valid == self.wf(),
    {
        let default_word = String::from_str("default");
        let scheme_known = self.color_scheme == default_word || self.color_scheme
            == String::from_str("dark") || self.color_scheme == String::from_str("light");
        let contrast_known = self.contrast == default_word || self.contrast == String::from_str(
            "higher",
        );
        let motion_known = self.reduced_motion == default_word || self.reduced_motion
            == String::from_str("reduced");
        scheme_known && contrast_known && motion_known
    }

    /// The number of the colour scheme: 0 for `default`, 1 for `dark`, 2
    /// for `light`.
    pub fn get_color_scheme(&self) -> (code: u32)
        requires
            self.wf(),
        ensures
            code == if self.color_scheme@ == "default"@ {
                DEFAULT_COLOR
            } else if self.color_scheme@ == "dark"@ {
                DARK_COLOR
            } else {
                LIGHT_COLOR
            },
            code <= 2,
    {
        if self.color_scheme == String::from_str("default") {
            DEFAULT_COLOR
        } else if self.color_scheme == String::from_str("dark") {
            DARK_COLOR
        } else {
            LIGHT_COLOR
        }
    }

    /// The accent colour: the configured CSS colour, or white where the
    /// text is no colour.
    pub fn get_accent_color(&self) -> (color: AccentColor)
        ensures
            color == spec_accent(css_rgba8(self.accent_color@)),
    {
        accent_from(parse_css_color(self.accent_color.as_str()))
    }

    /// The number of the contrast: 0 for `default`, 1 for `higher`.
    pub fn get_contrast(&self) -> (code: u32)
        requires
            self.wf(),
        ensures
            code == if self.contrast@ == "default"@ {
                DEFAULT_CONTRAST
            } else {
                HIGHER_CONTRAST
            },
            code <= 1,
    {
        if self.contrast == String::from_str("default") {
            DEFAULT_CONTRAST
        } else {
            HIGHER_CONTRAST
        }
    }

    /// The number of the motion setting: 0 for `default`, 1 for `reduced`.
    pub fn get_reduced_motion(&self) -> (code: u32)
        requires
            self.wf(),
        ensures
            code == if self.reduced_motion@ == "default"@ {
                DEFAULT_REDUCED_MOTION
            } else {
                REDUCED_REDUCED_MOTION
            },
            code <= 1,
    {
        if self.reduced_motion == String::from_str("default") {
            DEFAULT_REDUCED_MOTION
        } else {
            REDUCED_REDUCED_MOTION
        }
    }

    /// The settings to use for what was read from the configuration file:
    /// the record read where there is one and it is well formed, the
    /// defaults otherwise.
    pub fn config_from_file(read: Option<SettingsConfig>) -> (config: SettingsConfig)
        ensures
            config.wf(),
            match read {
                Some(record) if record.wf() => config == record,
                _ => config.is_default(),
            },
    {
        match read {
            Some(record) => {
                if record.is_valid() {
                    record
                } else {
                    SettingsConfig::default()
                }
            },
            None => SettingsConfig::default(),
        }
    }

    /// The record holds the default of every setting.
    pub open spec fn is_default(&self) -> bool {
        &&& self.color_scheme@ == "default"@
        &&& self.accent_color@ == "#ffffff"@
        &&& self.contrast@ == "default"@
        &&& self.reduced_motion@ == "default"@
    }
}

impl Default for SettingsConfig {
    /// The default of every setting: default scheme, white accent,
    /// default contrast, default motion.
    fn default() -> (config: SettingsConfig)
        ensures
            config.is_default(),
            config.wf(),
    {
        SettingsConfig {
            color_scheme: String::from_str("default"),
            accent_color: String::from_str("#ffffff"),
            contrast: String::from_str("default"),
            reduced_motion: String::from_str("default"),
        }
    }
}

} // verus!
