//! The settings page: which settings file it edits, and the values it shows.
use vstd::prelude::*;

use crate::text::{owned, same_text};

verus! {

/// Which settings the page edits: the user's or the workspace's.
#[derive(Clone, Copy, Debug, PartialEq, Eq, Structural)]
pub enum SettingsTarget {
    User,
    Workspace,
}

/// The colour theme a `theme` setting selects.
#[derive(Clone, Copy, Debug, PartialEq, Eq, Structural)]
pub enum ThemeMode {
    Light,
    Dark,
}

/// A setting's value, as a settings file holds it.
#[derive(Clone, Debug, PartialEq)]
pub enum SettingValue {
    Text(String),
    Number(u64),
    Flag(bool),
}

/// A choice button of the settings page.
#[derive(Clone, Debug, PartialEq)]
pub struct SettingChoice {
    /// The setting it changes.
    pub key: &'static str,
    pub label: &'static str,
    /// The value it saves.
    pub value: SettingValue,
    /// Whether the setting has this value now, so the button shows as chosen.
    pub active: bool,
}

/// The settings page.
pub struct SettingsView {
    pub current_target: SettingsTarget,
    pub theme_mode: String,
    pub font_size: usize,
    pub tab_size: usize,
    pub soft_wrap: bool,
    pub auto_save_interval: usize,
}

/// The values one settings file gives for the page's settings, each when present
/// with the right type.
pub struct StoredSettings {
    pub theme: Option<String>,
    pub font_size: Option<u64>,
    pub tab_size: Option<u64>,
    pub soft_wrap: Option<bool>,
    pub auto_save_interval: Option<u64>,
}

/// The page shows `s` filled in with the defaults: dark theme, 14 pt font,
/// tab size 4, no soft wrap, auto-save every 30 seconds.
pub open spec fn shows(v: SettingsView, s: StoredSettings) -> bool {
    &&& v.theme_mode@ == (match s.theme {
        Some(t) => t@,
        None => "dark"@,
    })
    &&& v.font_size == (match s.font_size {
        Some(f) => f as usize,
        None => 14,
    })
    &&& v.tab_size == (match s.tab_size {
        Some(t) => t as usize,
        None => 4,
    })
    &&& v.soft_wrap == (match s.soft_wrap {
        Some(w) => w,
        None => false,
    })
    &&& v.auto_save_interval == (match s.auto_save_interval {
        Some(a) => a as usize,
        None => 30,
    })
}

impl SettingsView {
    /// The page on the user's settings, showing `stored` (see `shows`).
    pub fn new(stored: StoredSettings) -> (res: Self)
        ensures
            res.current_target == SettingsTarget::User,
            shows(res, stored),
    {
        let mut view = SettingsView {
            current_target: SettingsTarget::User,
            theme_mode: owned("dark"),
            font_size: 14,
            tab_size: 4,
            soft_wrap: false,
            auto_save_interval: 30,
        };
        view.load_from_store(stored);
        view
    }

    /// Shows the values of the current target's settings file (see `shows`).
    pub fn load_from_store(&mut self, stored: StoredSettings)
        ensures
            final(self).current_target == old(self).current_target,
            shows(*final(self), stored),
    {
        self.theme_mode = match stored.theme {
            Some(t) => t,
            None => owned("dark"),
        };
        self.font_size = match stored.font_size {
            Some(f) => f as usize,
            None => 14,
        };
        self.tab_size = match stored.tab_size {
            Some(t) => t as usize,
            None => 4,
        };
        self.soft_wrap = match stored.soft_wrap {
            Some(w) => w,
            None => false,
        };
        self.auto_save_interval = match stored.auto_save_interval {
            Some(a) => a as usize,
            None => 30,
        };
    }

    /// Switches the page to the user's or the workspace's settings.
    pub fn set_target(&mut self, target: SettingsTarget)
        ensures
            *final(self) == (SettingsView { current_target: target, ..*old(self) }),
    {
        self.current_target = target;
    }

    /// Saving a setting: `key` is the setting's name, `value` its new value,
    /// and `reloaded` what the current target's settings file holds once the
    /// value is written. The page then shows `reloaded`; a text saved under
    /// `theme` gives the theme to switch to.
    pub fn save_setting(&mut self, key: &str, value: &SettingValue, reloaded: StoredSettings) -> (res:
        Option<ThemeMode>)
        ensures
            final(self).current_target == old(self).current_target,
            shows(*final(self), reloaded),
            res == (if key@ == "theme"@ && value is Text {
                Some(Self::theme_mode_of(value->Text_0@))
            } else {
                None
            }),
    {
        let mut res = None;
        if same_text(key, "theme") {
            if let SettingValue::Text(v) = value {
                res = Some(Self::theme_mode_for(v.as_str()));
            }
        }
        self.load_from_store(reloaded);
        res
    }

    /// Whether `c` is the `k`-th choice button of the page: its setting, its
    /// label, the value it saves, and whether it shows as the current value.
    pub open spec fn is_choice(&self, k: int, c: SettingChoice) -> bool {
        if k == 0 {
            &&& c.key@ == "theme"@
            &&& c.label@ == "Dark"@
            &&& (c.value matches SettingValue::Text(t) && t@ == "dark"@)
            &&& c.active == (self.theme_mode@ == "dark"@)
        } else if k == 1 {
            &&& c.key@ == "theme"@
            &&& c.label@ == "Light"@
            &&& (c.value matches SettingValue::Text(t) && t@ == "light"@)
            &&& c.active == (self.theme_mode@ == "light"@)
        } else if k == 2 {
            &&& c.key@ == "editor.font_size"@
            &&& c.label@ == "12px"@
            &&& c.value == SettingValue::Number(12)
            &&& c.active == (self.font_size == 12)
        } else if k == 3 {
            &&& c.key@ == "editor.font_size"@
            &&& c.label@ == "14px"@
            &&& c.value == SettingValue::Number(14)
            &&& c.active == (self.font_size == 14)
        } else if k == 4 {
            &&& c.key@ == "editor.font_size"@
            &&& c.label@ == "16px"@
            &&& c.value == SettingValue::Number(16)
            &&& c.active == (self.font_size == 16)
        } else if k == 5 {
            &&& c.key@ == "editor.font_size"@
            &&& c.label@ == "18px"@
            &&& c.value == SettingValue::Number(18)
            &&& c.active == (self.font_size == 18)
        } else if k == 6 {
            &&& c.key@ == "editor.tab_size"@
            &&& c.label@ == "2"@
            &&& c.value == SettingValue::Number(2)
            &&& c.active == (self.tab_size == 2)
        } else if k == 7 {
            &&& c.key@ == "editor.tab_size"@
            &&& c.label@ == "4"@
            &&& c.value == SettingValue::Number(4)
            &&& c.active == (self.tab_size == 4)
        } else if k == 8 {
            &&& c.key@ == "editor.tab_size"@
            &&& c.label@ == "8"@
            &&& c.value == SettingValue::Number(8)
            &&& c.active == (self.tab_size == 8)
        } else if k == 9 {
            &&& c.key@ == "editor.soft_wrap"@
            &&& c.label@ == "Off"@
            &&& c.value == SettingValue::Flag(false)
            &&& c.active == (!self.soft_wrap)
        } else if k == 10 {
            &&& c.key@ == "editor.soft_wrap"@
            &&& c.label@ == "On"@
            &&& c.value == SettingValue::Flag(true)
            &&& c.active == (self.soft_wrap)
        } else if k == 11 {
            &&& c.key@ == "files.auto_save_interval"@
            &&& c.label@ == "10s"@
            &&& c.value == SettingValue::Number(10)
            &&& c.active == (self.auto_save_interval == 10)
        } else if k == 12 {
            &&& c.key@ == "files.auto_save_interval"@
            &&& c.label@ == "30s"@
            &&& c.value == SettingValue::Number(30)
            &&& c.active == (self.auto_save_interval == 30)
        } else if k == 13 {
            &&& c.key@ == "files.auto_save_interval"@
            &&& c.label@ == "60s"@
            &&& c.value == SettingValue::Number(60)
            &&& c.active == (self.auto_save_interval == 60)
        } else {
            false
        }
    }

    /// The choice buttons of the page, setting by setting: theme, font size,
    /// tab size, soft wrap and auto-save interval (see `is_choice`). A click
    /// on one saves its value under its setting (see `save_setting`).
    pub fn setting_choices(&self) -> (res: Vec<SettingChoice>)
        ensures
            res@.len() == 14,
            forall|k: int| 0 <= k < res@.len() ==> self.is_choice(k, #[trigger] res@[k]),
    {
        let mut v: Vec<SettingChoice> = Vec::new();
        v.push(SettingChoice { key: "theme", label: "Dark", value: SettingValue::Text(owned("dark")), active: same_text(self.theme_mode.as_str(), "dark") });
        v.push(SettingChoice { key: "theme", label: "Light", value: SettingValue::Text(owned("light")), active: same_text(self.theme_mode.as_str(), "light") });
        v.push(SettingChoice { key: "editor.font_size", label: "12px", value: SettingValue::Number(12), active: self.font_size == 12 });
        v.push(SettingChoice { key: "editor.font_size", label: "14px", value: SettingValue::Number(14), active: self.font_size == 14 });
        v.push(SettingChoice { key: "editor.font_size", label: "16px", value: SettingValue::Number(16), active: self.font_size == 16 });
        v.push(SettingChoice { key: "editor.font_size", label: "18px", value: SettingValue::Number(18), active: self.font_size == 18 });
        v.push(SettingChoice { key: "editor.tab_size", label: "2", value: SettingValue::Number(2), active: self.tab_size == 2 });
        v.push(SettingChoice { key: "editor.tab_size", label: "4", value: SettingValue::Number(4), active: self.tab_size == 4 });
        v.push(SettingChoice { key: "editor.tab_size", label: "8", value: SettingValue::Number(8), active: self.tab_size == 8 });
        v.push(SettingChoice { key: "editor.soft_wrap", label: "Off", value: SettingValue::Flag(false), active: !self.soft_wrap });
        v.push(SettingChoice { key: "editor.soft_wrap", label: "On", value: SettingValue::Flag(true), active: self.soft_wrap });
        v.push(SettingChoice { key: "files.auto_save_interval", label: "10s", value: SettingValue::Number(10), active: self.auto_save_interval == 10 });
        v.push(SettingChoice { key: "files.auto_save_interval", label: "30s", value: SettingValue::Number(30), active: self.auto_save_interval == 30 });
        v.push(SettingChoice { key: "files.auto_save_interval", label: "60s", value: SettingValue::Number(60), active: self.auto_save_interval == 60 });
        assert forall|k: int| 0 <= k < v@.len() implies self.is_choice(k, #[trigger] v@[k]) by {}
        v
    }

    /// The theme a `theme` value names: light for `light`, dark for anything else.
    pub open spec fn theme_mode_of(value: Seq<char>) -> ThemeMode {
        if value == "light"@ {
            ThemeMode::Light
        } else {
            ThemeMode::Dark
        }
    }

    /// The theme a new `theme` value selects: light for `light`, dark for anything else.
    pub fn theme_mode_for(value: &str) -> (res: ThemeMode)
        ensures
            res == (if value@ == "light"@ {
                ThemeMode::Light
            } else {
                ThemeMode::Dark
            }),
    {
        if same_text(value, "light") {
            ThemeMode::Light
        } else {
            ThemeMode::Dark
        }
    }
}

} // verus!
