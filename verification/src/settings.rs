//! The settings interface: what a read returns and what is announced when
//! the configuration changes.

pub mod config;

use vstd::prelude::*;
use vstd::string::StringExecFns;
pub use crate::settings::config::{AccentColor, SettingsConfig};
use crate::settings::config::{css_rgba8, spec_accent, DARK_COLOR, DEFAULT_COLOR, DEFAULT_CONTRAST, DEFAULT_REDUCED_MOTION, HIGHER_CONTRAST, LIGHT_COLOR, REDUCED_REDUCED_MOTION};

verus! {

/// The value of one setting.
#[derive(Clone, Copy, Debug, PartialEq, Eq, Structural)]
pub enum SettingValue {
    /// A number.
    Number(u32),
    /// A colour.
    Color(AccentColor),
}

/// Why a read failed.
#[derive(Clone, Copy, Debug, PartialEq, Eq, Structural)]
pub enum SettingsError {
    /// The namespace is not the appearance namespace.
    NoSuchNamespace,
    /// The namespace has no such key.
    NoSuchKey,
}

impl SettingsError {
    /// What the client is told.
    pub fn message(&self) -> (text: &'static str)
        ensures
            text@ == match self {
                SettingsError::NoSuchNamespace => "No such namespace"@,
                SettingsError::NoSuchKey => "No such key"@,
            },
    {
        match self {
            SettingsError::NoSuchNamespace => "No such namespace",
            SettingsError::NoSuchKey => "No such key",
        }
    }
}

/// One announcement of a changed setting.
pub struct SettingChanged {
    /// The namespace of the setting.
    pub namespace: String,
    /// The key of the setting.
    pub key: String,
    /// The new value.
    pub value: SettingValue,
}

/// What happened to a watched file.
#[derive(Clone, Copy, Debug, PartialEq, Eq, Structural)]
pub enum WatchEvent {
    /// A file was made.
    Create,
    /// A file was changed.
    Modify,
    /// A file was removed.
    Remove,
    /// A file was read.
    Access,
    /// Anything else.
    Other,
}

impl SettingsConfig {
    /// The number of the colour scheme.
    pub open spec fn spec_color_scheme(&self) -> u32 {
        if self.color_scheme@ == "default"@ {
            DEFAULT_COLOR
        } else if self.color_scheme@ == "dark"@ {
            DARK_COLOR
        } else {
            LIGHT_COLOR
        }
    }

    /// The number of the contrast.
    pub open spec fn spec_contrast(&self) -> u32 {
        if self.contrast@ == "default"@ {
            DEFAULT_CONTRAST
        } else {
            HIGHER_CONTRAST
        }
    }

    /// The number of the motion setting.
    pub open spec fn spec_reduced_motion(&self) -> u32 {
        if self.reduced_motion@ == "default"@ {
            DEFAULT_REDUCED_MOTION
        } else {
            REDUCED_REDUCED_MOTION
        }
    }

    /// The accent colour.
    pub open spec fn spec_accent_color(&self) -> AccentColor {
        spec_accent(css_rgba8(self.accent_color@))
    }
}

/// The settings interface.
#[derive(Debug)]
pub struct SettingsBackend;

impl SettingsBackend {
    /// The version of the interface.
    pub fn version(&self) -> (version: u32)
        ensures
            version == 1,
    {
        1
    }

    /// Whether a change of the watched directory calls for reading the
    /// configuration anew: when a file was made or changed.
    pub fn reloads_on(&self, event: WatchEvent) -> (reload: bool)
        ensures
            reload == (event == WatchEvent::Create || event == WatchEvent::Modify),
    {
        match event {
            WatchEvent::Create => true,
            WatchEvent::Modify => true,
            _ => false,
        }
    }

    /// The value of the setting `key` in `namespace`.  Only the appearance
    /// namespace exists, with the keys `color-scheme`, `accent-color` and
    /// `contrast`.
    pub fn read(&self, config: &SettingsConfig, namespace: &String, key: &String) -> (value: Result<
        SettingValue,
        SettingsError,
    >)
        requires
            config.wf(),
        ensures
            value == if namespace@ != "org.freedesktop.appearance"@ {
                Err::<SettingValue, SettingsError>(SettingsError::NoSuchNamespace)
            } else if key@ == "color-scheme"@ {
                Ok(SettingValue::Number(config.spec_color_scheme()))
            } else if key@ == "accent-color"@ {
                Ok(SettingValue::Color(config.spec_accent_color()))
            } else if key@ == "contrast"@ {
                Ok(SettingValue::Number(config.spec_contrast()))
            } else {
                Err(SettingsError::NoSuchKey)
            },
    {
        if !(*namespace == String::from_str("org.freedesktop.appearance")) {
            return Err(SettingsError::NoSuchNamespace);
        }
        if *key == String::from_str("color-scheme") {
            return Ok(SettingValue::Number(config.get_color_scheme()));
        }
        if *key == String::from_str("accent-color") {
            return Ok(SettingValue::Color(config.get_accent_color()));
        }
        if *key == String::from_str("contrast") {
            return Ok(SettingValue::Number(config.get_contrast()));
        }
        Err(SettingsError::NoSuchKey)
    }

    /// The settings of the appearance namespace, where `namespaces` asks
    /// for it: colour scheme, accent colour and contrast, in this order.
    pub fn read_all(&self, config: &SettingsConfig, namespaces: &Vec<String>) -> (values: Result<
        Vec<(String, SettingValue)>,
        SettingsError,
    >)
        requires
            config.wf(),
        ensures
            values.is_ok() == (exists|i: int|
                0 <= i < namespaces@.len() && (#[trigger] namespaces@[i])@
                    == "org.freedesktop.appearance"@),
            match values {
                Ok(list) => {
                    &&& list@.len() == 3
                    &&& list@[0].0@ == "color-scheme"@
                    &&& list@[0].1 == SettingValue::Number(config.spec_color_scheme())
                    &&& list@[1].0@ == "accent-color"@
                    &&& list@[1].1 == SettingValue::Color(config.spec_accent_color())
                    &&& list@[2].0@ == "contrast"@
                    &&& list@[2].1 == SettingValue::Number(config.spec_contrast())
                },
                Err(error) => error == SettingsError::NoSuchNamespace,
            },
    {
        let wanted = String::from_str("org.freedesktop.appearance");
        let mut asked: bool = false;
        let mut index: usize = 0;
        while index < namespaces.len() && !asked
            invariant
                index <= namespaces.len(),
                wanted@ == "org.freedesktop.appearance"@,
                asked ==> exists|i: int|
                    0 <= i < namespaces@.len() && (#[trigger] namespaces@[i])@ == wanted@,
                !asked ==> forall|i: int| 0 <= i < index ==> (#[trigger] namespaces@[i])@ != wanted@,
            decreases namespaces.len() - index, if asked { 0int } else { 1int },
        {
            if namespaces[index] == wanted {
                asked = true;
            } else {
                index = index + 1;
            }
        }
        if !asked {
            return Err(SettingsError::NoSuchNamespace);
        }
        let mut list: Vec<(String, SettingValue)> = Vec::new();
        list.push((String::from_str("color-scheme"), SettingValue::Number(config.get_color_scheme())));
        list.push((String::from_str("accent-color"), SettingValue::Color(config.get_accent_color())));
        list.push((String::from_str("contrast"), SettingValue::Number(config.get_contrast())));
        Ok(list)
    }

    /// What is announced after the configuration was read anew: one
    /// change for each of colour scheme, accent colour, contrast and
    /// reduced motion, in this order, each in the appearance namespace and
    /// with the value that the configuration stands for.
    pub fn setting_changed(&self, config: &SettingsConfig) -> (signals: Vec<SettingChanged>)
        requires
            config.wf(),
        ensures
            signals@.len() == 4,
            forall|i: int|
                0 <= i < 4 ==> (#[trigger] signals@[i]).namespace@ == "org.freedesktop.appearance"@,
            signals@[0].key@ == "color-scheme"@,
            signals@[0].value == SettingValue::Number(config.spec_color_scheme()),
            signals@[1].key@ == "accent-color"@,
            signals@[1].value == SettingValue::Color(config.spec_accent_color()),
            signals@[2].key@ == "contrast"@,
            signals@[2].value == SettingValue::Number(config.spec_contrast()),
            signals@[3].key@ == "reduced-motion"@,
            signals@[3].value == SettingValue::Number(config.spec_reduced_motion()),
    {
        let mut signals: Vec<SettingChanged> = Vec::new();
        signals.push(
            SettingChanged {
                namespace: String::from_str("org.freedesktop.appearance"),
                key: String::from_str("color-scheme"),
                value: SettingValue::Number(config.get_color_scheme()),
            },
        );
        signals.push(
            SettingChanged {
                namespace: String::from_str("org.freedesktop.appearance"),
                key: String::from_str("accent-color"),
                value: SettingValue::Color(config.get_accent_color()),
            },
        );
        signals.push(
            SettingChanged {
                namespace: String::from_str("org.freedesktop.appearance"),
                key: String::from_str("contrast"),
                value: SettingValue::Number(config.get_contrast()),
            },
        );
        signals.push(
            SettingChanged {
                namespace: String::from_str("org.freedesktop.appearance"),
                key: String::from_str("reduced-motion"),
                value: SettingValue::Number(config.get_reduced_motion()),
            },
        );
        signals
    }
}

} // verus!
