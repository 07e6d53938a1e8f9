use vstd::prelude::*;

verus! {

/// The display sizes the bin offers, in percent of the original window.
pub open spec fn spec_valid_scale(value: u16) -> bool {
    value == 100 || value == 150 || value == 200 || value == 300
}

/// Whether `value` is one of the offered display sizes.
pub fn valid_scale(value: u16) -> (ok: bool)
    ensures
        ok == spec_valid_scale(value),
{
    value == 100 || value == 150 || value == 200 || value == 300
}

/// Value used for a boolean preference that is missing from the stored file.
pub fn default_true() -> (b: bool)
    ensures
        b,
{
    true
}

/// Size used when the stored file names none (or an unsupported one).
pub fn default_scale() -> (s: u16)
    ensures
        s == 200,
        spec_valid_scale(s),
{
    200
}

/// The user's preferences.
#[derive(Clone, Copy, Debug, PartialEq, Eq, Structural)]
pub struct Settings {
    pub confirm_delete: bool,
    pub sound_enabled: bool,
    pub scale_percent: u16,
}

/// Why a preference change was refused.
#[derive(Clone, Copy, Debug, PartialEq, Eq, Structural)]
pub enum SettingsError {
    UnsupportedScale,
}

impl Settings {
    /// The preferences of a fresh installation.
    pub open spec fn spec_default() -> Settings {
        Settings { confirm_delete: true, sound_enabled: true, scale_percent: 200 }
    }

    /// A stored or running preference set is well formed when its size is offered.
    pub open spec fn wf(self) -> bool {
        spec_valid_scale(self.scale_percent)
    }

    pub open spec fn with_confirm_toggled(self) -> Settings {
        Settings { confirm_delete: !self.confirm_delete, ..self }
    }

    pub open spec fn with_sound_toggled(self) -> Settings {
        Settings { sound_enabled: !self.sound_enabled, ..self }
    }

    pub open spec fn with_scale(self, value: u16) -> Settings {
        Settings { scale_percent: value, ..self }
    }

    /// What loading turns the parsed file (if any) into.
    pub open spec fn spec_load(stored: Option<Settings>) -> Settings {
        match stored {
            None => Settings::spec_default(),
            Some(s) => if spec_valid_scale(s.scale_percent) {
                s
            } else {
                s.with_scale(200)
            },
        }
    }
}

impl Default for Settings {
    fn default() -> (s: Settings)
        ensures
            s == Settings::spec_default(),
    {
        Settings { confirm_delete: default_true(), sound_enabled: default_true(), scale_percent: default_scale() }
    }
}

impl Settings {
    /// Builds preferences from the fields found in the stored file; a field
    /// that is missing takes its default (both switches on, size 200%).
    pub fn from_fields(confirm_delete: Option<bool>, sound_enabled: Option<bool>, scale_percent: Option<u16>) -> (s: Settings)
        ensures
            s.confirm_delete == match confirm_delete {
                Some(b) => b,
                None => true,
            },
            s.sound_enabled == match sound_enabled {
                Some(b) => b,
                None => true,
            },
            s.scale_percent == match scale_percent {
                Some(v) => v,
                None => 200,
            },
    {
        Settings {
            confirm_delete: match confirm_delete {
                Some(b) => b,
                None => default_true(),
            },
            sound_enabled: match sound_enabled {
                Some(b) => b,
                None => default_true(),
            },
            scale_percent: match scale_percent {
                Some(v) => v,
                None => default_scale(),
            },
        }
    }
}

/// Turns the preferences read from disk (`None` when the file is missing or
/// unreadable) into the preferences the application starts with: a missing
/// file gives the defaults, an unsupported size falls back to the default size.
pub fn load(stored: Option<Settings>) -> (s: Settings)
    ensures
        s == Settings::spec_load(stored),
        s.wf(),
{
    let mut settings = match stored {
        Some(s) => s,
        None => Settings::default(),
    };
    if !valid_scale(settings.scale_percent) {
        settings.scale_percent = default_scale();
    }
    settings
}

/// The preferences after the "confirm before recycling" item was clicked.
pub fn toggle_confirm(current: &Settings) -> (next: Settings)
    ensures
        next == current.with_confirm_toggled(),
        next == (Settings {
            confirm_delete: !current.confirm_delete,
            sound_enabled: current.sound_enabled,
            scale_percent: current.scale_percent,
        }),
{
    let mut next = *current;
    next.confirm_delete = !next.confirm_delete;
    next
}

/// The preferences after the "play sounds" item was clicked.
pub fn toggle_sound(current: &Settings) -> (next: Settings)
    ensures
        next == current.with_sound_toggled(),
        next == (Settings {
            confirm_delete: current.confirm_delete,
            sound_enabled: !current.sound_enabled,
            scale_percent: current.scale_percent,
        }),
{
    let mut next = *current;
    next.sound_enabled = !next.sound_enabled;
    next
}

/// The preferences after a display size was chosen; unsupported sizes are refused.
pub fn set_scale(current: &Settings, value: u16) -> (next: Result<Settings, SettingsError>)
    ensures
        spec_valid_scale(value) ==> next == Ok::<Settings, SettingsError>(current.with_scale(value)),
        (value == 100 || value == 150 || value == 200 || value == 300) ==> next == Ok::<Settings, SettingsError>(
            Settings {
                confirm_delete: current.confirm_delete,
                sound_enabled: current.sound_enabled,
                scale_percent: value,
            },
        ),
        !(value == 100 || value == 150 || value == 200 || value == 300) ==> next == Err::<Settings, SettingsError>(
            SettingsError::UnsupportedScale,
        ),
        !spec_valid_scale(value) ==> next == Err::<Settings, SettingsError>(SettingsError::UnsupportedScale),
{
    if !valid_scale(value) {
        return Err(SettingsError::UnsupportedScale);
    }
    let mut next = *current;
    next.scale_percent = value;
    Ok(next)
}

/// The defaults confirm before recycling, play sounds, and show the bin at 200%.
pub proof fn lemma_defaults_are_safe()
    ensures
        Settings::spec_default().confirm_delete,
        Settings::spec_default().sound_enabled,
        Settings::spec_default().scale_percent == 200,
        Settings::spec_default().wf(),
{
}

/// Every change the user can make keeps the size among the offered ones:
/// loading always yields a supported size, toggles keep it, and a size
/// change is only accepted for a supported size.
pub proof fn lemma_changes_keep_supported_size(s: Settings, stored: Option<Settings>, value: u16)
    requires
        s.wf(),
    ensures
        Settings::spec_load(stored).wf(),
        s.with_confirm_toggled().wf(),
        s.with_sound_toggled().wf(),
        spec_valid_scale(value) ==> s.with_scale(value).wf(),
{
}

/// Toggling a switch twice gives back the preferences one started with,
/// and a toggle touches no other preference.
pub proof fn lemma_toggles_are_involutions(s: Settings)
    ensures
        s.with_confirm_toggled().with_confirm_toggled() == s,
        s.with_sound_toggled().with_sound_toggled() == s,
        s.with_confirm_toggled().sound_enabled == s.sound_enabled,
        s.with_confirm_toggled().scale_percent == s.scale_percent,
        s.with_sound_toggled().confirm_delete == s.confirm_delete,
        s.with_sound_toggled().scale_percent == s.scale_percent,
{
}

/// Loading preferences that are already well formed keeps them as they are.
pub proof fn lemma_load_keeps_valid_preferences(s: Settings)
    requires
        s.wf(),
    ensures
        Settings::spec_load(Some(s)) == s,
{
}

/// Choosing one of the offered sizes (100, 150, 200 or 300) always
/// succeeds and gives preferences with exactly that size, both switches
/// unchanged; any other size is refused.
pub proof fn lemma_set_scale_sets_the_chosen_size(s: Settings, v: u16)
    ensures
        (v == 100 || v == 150 || v == 200 || v == 300) <==> spec_valid_scale(v),
        (v == 100 || v == 150 || v == 200 || v == 300) ==> {
            &&& s.with_scale(v).scale_percent == v
            &&& s.with_scale(v).confirm_delete == s.confirm_delete
            &&& s.with_scale(v).sound_enabled == s.sound_enabled
        },
{
}

/// A toggle flips its own switch and leaves the other preferences alone.
pub proof fn lemma_toggles_flip_one_switch(s: Settings)
    ensures
        s.with_confirm_toggled().confirm_delete == !s.confirm_delete,
        s.with_confirm_toggled().sound_enabled == s.sound_enabled,
        s.with_confirm_toggled().scale_percent == s.scale_percent,
        s.with_sound_toggled().sound_enabled == !s.sound_enabled,
        s.with_sound_toggled().confirm_delete == s.confirm_delete,
        s.with_sound_toggled().scale_percent == s.scale_percent,
{
}

/// Loading: no file gives both switches on at 200%; a file with an
/// unsupported size keeps its switches and gets 200%; any other file is
/// taken as it is.
pub proof fn lemma_load_outcomes(stored: Option<Settings>, s: Settings)
    ensures
        stored is None ==> Settings::spec_load(stored) == (Settings {
            confirm_delete: true,
            sound_enabled: true,
            scale_percent: 200,
        }),
        stored == Some(s) && !(s.scale_percent == 100 || s.scale_percent == 150 || s.scale_percent == 200
            || s.scale_percent == 300) ==> Settings::spec_load(stored) == (Settings {
            confirm_delete: s.confirm_delete,
            sound_enabled: s.sound_enabled,
            scale_percent: 200,
        }),
        stored == Some(s) && (s.scale_percent == 100 || s.scale_percent == 150 || s.scale_percent == 200
            || s.scale_percent == 300) ==> Settings::spec_load(stored) == s,
{
}

} // verus!
