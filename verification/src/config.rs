//! User configuration: five optional settings, each with its own default.

use vstd::prelude::*;
use vstd::string::*;

verus! {

/// Icon shown when none is configured.
pub const DEFAULT_ICON: &'static str = "&#xf1bc;";

/// Colour used when none is configured.
pub const DEFAULT_COLOR: &'static str = "white";

/// Character budget of the displayed text when none is configured.
pub const DEFAULT_MAX_LENGTH: usize = 45;

/// Whether a "featuring" annotation is removed when nothing is configured.
pub const DEFAULT_REMOVE_FEAT: bool = false;

/// Pattern of a "featuring" annotation when none is configured.
pub const DEFAULT_FEAT_REGEX: &'static str = "\\(feat\\. [\\w* ]*\\)";

/// The settings as the user gave them. A field that is `None` stands for its
/// default; the fields are defaulted one by one.
pub struct Config {
    pub icon: Option<String>,
    pub color: Option<String>,
    pub max_length: Option<usize>,
    pub remove_feat: Option<bool>,
    pub feat_regex: Option<String>,
}

impl Config {
    /// The icon in effect.
    pub open spec fn icon_text(&self) -> Seq<char> {
        match self.icon {
            Some(s) => s@,
            None => DEFAULT_ICON@,
        }
    }

    /// The colour in effect.
    pub open spec fn color_text(&self) -> Seq<char> {
        match self.color {
            Some(s) => s@,
            None => DEFAULT_COLOR@,
        }
    }

    /// The character budget in effect.
    pub open spec fn budget(&self) -> nat {
        match self.max_length {
            Some(n) => n as nat,
            None => DEFAULT_MAX_LENGTH as nat,
        }
    }

    /// Whether "featuring" annotations are removed.
    pub open spec fn strips_feat(&self) -> bool {
        match self.remove_feat {
            Some(b) => b,
            None => DEFAULT_REMOVE_FEAT,
        }
    }

    /// The pattern of a "featuring" annotation in effect.
    pub open spec fn pattern_text(&self) -> Seq<char> {
        match self.feat_regex {
            Some(s) => s@,
            None => DEFAULT_FEAT_REGEX@,
        }
    }

    /// The configuration in which every field is set to its default.
    pub fn default() -> (c: Config)
        ensures
            c.icon matches Some(s) && s@ == DEFAULT_ICON@,
            c.color matches Some(s) && s@ == DEFAULT_COLOR@,
            c.max_length == Some(DEFAULT_MAX_LENGTH),
            c.remove_feat == Some(DEFAULT_REMOVE_FEAT),
            c.feat_regex matches Some(s) && s@ == DEFAULT_FEAT_REGEX@,
    {
        Config {
            icon: Some(String::from_str(DEFAULT_ICON)),
            color: Some(String::from_str(DEFAULT_COLOR)),
            max_length: Some(DEFAULT_MAX_LENGTH),
            remove_feat: Some(DEFAULT_REMOVE_FEAT),
            feat_regex: Some(String::from_str(DEFAULT_FEAT_REGEX)),
        }
    }

    /// The configuration in which no field is set: every setting falls back
    /// to its default.
    pub fn unset() -> (c: Config)
        ensures
            c.icon is None,
            c.color is None,
            c.max_length is None,
            c.remove_feat is None,
            c.feat_regex is None,
    {
        Config { icon: None, color: None, max_length: None, remove_feat: None, feat_regex: None }
    }

    /// Fills every field that is not set with its default and leaves the
    /// others as they are: the settings in effect stay the same, and all of
    /// them are now written down.
    pub fn with_defaults(self) -> (c: Config)
        ensures
            c.icon is Some && c.color is Some && c.max_length is Some && c.remove_feat is Some
                && c.feat_regex is Some,
            c.icon_text() == self.icon_text(),
            c.color_text() == self.color_text(),
            c.budget() == self.budget(),
            c.strips_feat() == self.strips_feat(),
            c.pattern_text() == self.pattern_text(),
    {
        Config {
            icon: Some(
                match self.icon {
                    Some(s) => s,
                    None => String::from_str(DEFAULT_ICON),
                },
            ),
            color: Some(
                match self.color {
                    Some(s) => s,
                    None => String::from_str(DEFAULT_COLOR),
                },
            ),
            max_length: Some(
                match self.max_length {
                    Some(n) => n,
                    None => DEFAULT_MAX_LENGTH,
                },
            ),
            remove_feat: Some(
                match self.remove_feat {
                    Some(b) => b,
                    None => DEFAULT_REMOVE_FEAT,
                },
            ),
            feat_regex: Some(
                match self.feat_regex {
                    Some(s) => s,
                    None => String::from_str(DEFAULT_FEAT_REGEX),
                },
            ),
        }
    }

    /// The icon in effect: the configured one, or the default.
    pub fn icon_or_default(&self) -> (s: &str)
        ensures
            s@ == self.icon_text(),
    {
        match &self.icon {
            Some(s) => s.as_str(),
            None => DEFAULT_ICON,
        }
    }

    /// The colour in effect: the configured one, or the default.
    pub fn color_or_default(&self) -> (s: &str)
        ensures
            s@ == self.color_text(),
    {
        match &self.color {
            Some(s) => s.as_str(),
            None => DEFAULT_COLOR,
        }
    }

    /// The character budget in effect: the configured one, or the default.
    pub fn max_length_or_default(&self) -> (n: usize)
        ensures
            n as nat == self.budget(),
    {
        match self.max_length {
            Some(n) => n,
            None => DEFAULT_MAX_LENGTH,
        }
    }

    /// Whether "featuring" annotations are removed: as configured, or the
    /// default.
    pub fn remove_feat_or_default(&self) -> (b: bool)
        ensures
            b == self.strips_feat(),
    {
        match self.remove_feat {
            Some(b) => b,
            None => DEFAULT_REMOVE_FEAT,
        }
    }

    /// The pattern in effect: the configured one, or the default.
    pub fn feat_regex_or_default(&self) -> (s: &str)
        ensures
            s@ == self.pattern_text(),
    {
        match &self.feat_regex {
            Some(s) => s.as_str(),
            None => DEFAULT_FEAT_REGEX,
        }
    }
}

} // verus!
