//! The three user settings (unify the view mode of merged tabs with the
//! parent window, start with Windows, write a log file), how they are read
//! from and written to the settings file, and which outside actions a change
//! of each calls for.

use vstd::prelude::*;
use crate::text::{chars_of, concat, contains, has_infix, string_of};

verus! {

/// The settings.
#[derive(Clone, Copy, PartialEq, Eq, Debug)]
pub struct Config {
    /// Give a merged tab the view mode (icons, details, ...) of the window it joins.
    pub unify_view_mode: bool,
    /// Register the program to start with Windows.
    pub auto_start: bool,
    /// Write a log file next to the executable.
    pub enable_log: bool,
}

/// The settings in force before any file is read: view modes unified,
/// no auto-start, no log.
pub open spec fn default_config() -> Config {
    Config { unify_view_mode: true, auto_start: false, enable_log: false }
}

impl Default for Config {
    fn default() -> (r: Config)
        ensures
            r == default_config(),
    {
        Config { unify_view_mode: true, auto_start: false, enable_log: false }
    }
}

/// An outside action that a settings change calls for.
#[derive(Clone, Copy, PartialEq, Eq, Debug)]
pub enum ConfigAction {
    /// Write the settings file from the current settings.
    SaveConfig,
    /// Add (`true`) or remove (`false`) the auto-start registry entry.
    WriteAutoStart(bool),
    /// Open the log file.
    InitLogger,
}

/// What was found where the settings file should be.
pub enum ConfigSource {
    /// There is no settings file.
    Missing,
    /// The file exists but could not be read.
    Unreadable,
    /// The file's text.
    Content(String),
}

/// The settings that a settings file's text sets: the view mode is unified
/// unless the text holds `unify_view_mode = false`; auto-start and the log
/// are on only if it holds `auto_start = true` and `enable_log = true`.
pub open spec fn parsed_config(content: Seq<char>) -> Config {
    Config {
        unify_view_mode: !has_infix(content, "unify_view_mode = false"@),
        auto_start: has_infix(content, "auto_start = true"@),
        enable_log: has_infix(content, "enable_log = true"@),
    }
}

/// The text of a boolean in the settings file.
pub open spec fn bool_text(b: bool) -> Seq<char> {
    if b {
        "true"@
    } else {
        "false"@
    }
}

/// The text of the settings file for `c`.
pub open spec fn rendered_config(c: Config) -> Seq<char> {
    "# TabifyExplorer 設定ファイル\nunify_view_mode = "@ + bool_text(c.unify_view_mode)
        + "\nauto_start = "@ + bool_text(c.auto_start) + "\nenable_log = "@ + bool_text(
        c.enable_log,
    ) + "\n"@
}

/// The settings and actions that loading produces: a missing file keeps the
/// settings and has them written out; an unreadable file keeps them and does
/// nothing; a file's text sets all three, an auto-start setting read as on
/// is written to the registry again, and a log setting read as on opens the
/// log file.
pub open spec fn loaded(current: Config, source: ConfigSource) -> (Config, Seq<ConfigAction>) {
    match source {
        ConfigSource::Missing => (current, seq![ConfigAction::SaveConfig]),
        ConfigSource::Unreadable => (current, seq![]),
        ConfigSource::Content(text) => {
            let c = parsed_config(text@);
            (c, startup_actions(c))
        },
    }
}

/// The actions that settings read from the file call for: the auto-start
/// registry entry written again when auto-start is on, then the log file
/// opened when the log is on.
pub open spec fn startup_actions(c: Config) -> Seq<ConfigAction> {
    (if c.auto_start {
        seq![ConfigAction::WriteAutoStart(true)]
    } else {
        Seq::<ConfigAction>::empty()
    }) + (if c.enable_log {
        seq![ConfigAction::InitLogger]
    } else {
        Seq::<ConfigAction>::empty()
    })
}

/// Whether merged tabs take the view mode of the window they join.
pub fn is_unify_view_mode_enabled(config: &Config) -> (r: bool)
    ensures
        r == config.unify_view_mode,
{
    config.unify_view_mode
}

/// Sets the view-mode setting; the settings file is then to be written.
pub fn set_unify_view_mode_enabled(config: &mut Config, enabled: bool) -> (r: Vec<ConfigAction>)
    ensures
        *final(config) == (Config { unify_view_mode: enabled, ..*old(config) }),
        r@ == seq![ConfigAction::SaveConfig],
{
    config.unify_view_mode = enabled;
    vec![ConfigAction::SaveConfig]
}

/// Flips the view-mode setting and returns its new value with the actions
/// that the change calls for.
pub fn toggle_unify_view_mode(config: &mut Config) -> (r: (bool, Vec<ConfigAction>))
    ensures
        r.0 == !old(config).unify_view_mode,
        *final(config) == (Config { unify_view_mode: r.0, ..*old(config) }),
        r.1@ == seq![ConfigAction::SaveConfig],
{
    let new_val = !is_unify_view_mode_enabled(config);
    let actions = set_unify_view_mode_enabled(config, new_val);
    (new_val, actions)
}

/// Whether the program starts with Windows.
pub fn is_auto_start_enabled(config: &Config) -> (r: bool)
    ensures
        r == config.auto_start,
{
    config.auto_start
}

/// Sets the auto-start setting; the registry entry is then to be added or
/// removed accordingly, and the settings file written.
pub fn set_auto_start_enabled(config: &mut Config, enabled: bool) -> (r: Vec<ConfigAction>)
    ensures
        *final(config) == (Config { auto_start: enabled, ..*old(config) }),
        r@ == seq![ConfigAction::WriteAutoStart(enabled), ConfigAction::SaveConfig],
{
    config.auto_start = enabled;
    vec![ConfigAction::WriteAutoStart(enabled), ConfigAction::SaveConfig]
}

/// Flips the auto-start setting and returns its new value with the actions
/// that the change calls for.
pub fn toggle_auto_start(config: &mut Config) -> (r: (bool, Vec<ConfigAction>))
    ensures
        r.0 == !old(config).auto_start,
        *final(config) == (Config { auto_start: r.0, ..*old(config) }),
        r.1@ == seq![ConfigAction::WriteAutoStart(r.0), ConfigAction::SaveConfig],
{
    let new_val = !is_auto_start_enabled(config);
    let actions = set_auto_start_enabled(config, new_val);
    (new_val, actions)
}

/// Whether the log file is written.
pub fn is_log_enabled(config: &Config) -> (r: bool)
    ensures
        r == config.enable_log,
{
    config.enable_log
}

/// Sets the log setting; when it is turned on the log file is to be opened;
/// the settings file is then written.
pub fn set_log_enabled(config: &mut Config, enabled: bool) -> (r: Vec<ConfigAction>)
    ensures
        *final(config) == (Config { enable_log: enabled, ..*old(config) }),
        r@ == (if enabled {
            seq![ConfigAction::InitLogger, ConfigAction::SaveConfig]
        } else {
            seq![ConfigAction::SaveConfig]
        }),
{
    config.enable_log = enabled;
    if enabled {
        vec![ConfigAction::InitLogger, ConfigAction::SaveConfig]
    } else {
        vec![ConfigAction::SaveConfig]
    }
}

/// Flips the log setting and returns its new value with the actions that the
/// change calls for.
pub fn toggle_log_enabled(config: &mut Config) -> (r: (bool, Vec<ConfigAction>))
    ensures
        r.0 == !old(config).enable_log,
        *final(config) == (Config { enable_log: r.0, ..*old(config) }),
        r.1@ == (if r.0 {
            seq![ConfigAction::InitLogger, ConfigAction::SaveConfig]
        } else {
            seq![ConfigAction::SaveConfig]
        }),
{
    let new_val = !is_log_enabled(config);
    let actions = set_log_enabled(config, new_val);
    (new_val, actions)
}

/// The settings that a settings file's text sets.
pub fn parse_config(content: &str) -> (r: Config)
    ensures
        r == parsed_config(content@),
{
    let c = chars_of(content);
    Config {
        unify_view_mode: !contains(&c, &chars_of("unify_view_mode = false")),
        auto_start: contains(&c, &chars_of("auto_start = true")),
        enable_log: contains(&c, &chars_of("enable_log = true")),
    }
}

fn bool_chars(b: bool) -> (r: Vec<char>)
    ensures
        r@ == bool_text(b),
{
    if b {
        chars_of("true")
    } else {
        chars_of("false")
    }
}

/// The text of the settings file for the given settings.
pub fn render_config(config: &Config) -> (r: String)
    ensures
        r@ == rendered_config(*config),
{
    let mut t = chars_of("# TabifyExplorer 設定ファイル\nunify_view_mode = ");
    t = concat(&t, &bool_chars(config.unify_view_mode));
    t = concat(&t, &chars_of("\nauto_start = "));
    t = concat(&t, &bool_chars(config.auto_start));
    t = concat(&t, &chars_of("\nenable_log = "));
    t = concat(&t, &bool_chars(config.enable_log));
    t = concat(&t, &chars_of("\n"));
    string_of(&t)
}

/// The settings and the actions that loading the settings file produces,
/// given the settings in force and what was found where the file should be.
pub fn load_config(current: &Config, source: ConfigSource) -> (r: (Config, Vec<ConfigAction>))
    ensures
        (r.0, r.1@) == loaded(*current, source),
{
    match source {
        ConfigSource::Missing => (*current, vec![ConfigAction::SaveConfig]),
        ConfigSource::Unreadable => (*current, Vec::new()),
        ConfigSource::Content(text) => {
            let c = parse_config(text.as_str());
            let mut actions: Vec<ConfigAction> = Vec::new();
            if c.auto_start {
                actions.push(ConfigAction::WriteAutoStart(true));
            }
            if c.enable_log {
                actions.push(ConfigAction::InitLogger);
            }
            proof {
                assert(actions@ =~= startup_actions(c));
            }
            (c, actions)
        },
    }
}

/// Settings written to the settings file are read back unchanged.
pub proof fn lemma_render_then_parse(c: Config)
    ensures
        parsed_config(rendered_config(c)) == c,
{
    reveal_strlit("# TabifyExplorer 設定ファイル\nunify_view_mode = ");
    reveal_strlit("\nauto_start = ");
    reveal_strlit("\nenable_log = ");
    reveal_strlit("\n");
    reveal_strlit("true");
    reveal_strlit("false");
    reveal_strlit("unify_view_mode = false");
    reveal_strlit("auto_start = true");
    reveal_strlit("enable_log = true");
    let s = rendered_config(c);
    let lu: int = bool_text(c.unify_view_mode).len() as int;
    let la: int = bool_text(c.auto_start).len() as int;
    let p1 = "unify_view_mode = false"@;
    if c.unify_view_mode {
        assert forall|i: int| 0 <= i && i + p1.len() <= s.len() implies #[trigger] s.subrange(
            i,
            i + p1.len(),
        ) != p1 by {
            let t = s.subrange(i, i + p1.len());
            assert(t[0] != p1[0] || t[9] != p1[9] || t[18] != p1[18]);
        }
    } else {
        assert(s.subrange(24, 24 + p1.len() as int) =~= p1);
    }
    let p2 = "auto_start = true"@;
    if c.auto_start {
        assert(s.subrange(43 + lu, 43 + lu + p2.len() as int) =~= p2);
    } else {
        assert forall|i: int| 0 <= i && i + p2.len() <= s.len() implies #[trigger] s.subrange(
            i,
            i + p2.len(),
        ) != p2 by {
            let t = s.subrange(i, i + p2.len());
            assert(t[0] != p2[0] || t[11] != p2[11] || t[13] != p2[13]);
        }
    }
    let p3 = "enable_log = true"@;
    if c.enable_log {
        assert(s.subrange(57 + lu + la, 57 + lu + la + p3.len() as int) =~= p3);
    } else {
        assert forall|i: int| 0 <= i && i + p3.len() <= s.len() implies #[trigger] s.subrange(
            i,
            i + p3.len(),
        ) != p3 by {
            let t = s.subrange(i, i + p3.len());
            assert(t[0] != p3[0] || t[11] != p3[11] || t[13] != p3[13]);
        }
    }
}

/// Loading a settings file written from some settings gives back those
/// settings; the registry is written again only when auto-start is on, and
/// the log file is opened only when the log is on.
pub proof fn lemma_save_then_load(current: Config, c: Config, text: String)
    requires
        text@ == rendered_config(c),
    ensures
        loaded(current, ConfigSource::Content(text)).0 == c,
        loaded(current, ConfigSource::Content(text)).1 == startup_actions(c),
        loaded(current, ConfigSource::Content(text)).1.contains(ConfigAction::InitLogger) == c.enable_log,
{
    lemma_render_then_parse(c);
    let acts = startup_actions(c);
    if c.enable_log {
        assert(acts[acts.len() - 1] == ConfigAction::InitLogger);
    } else {
        assert forall|k: int| 0 <= k < acts.len() implies acts[k] != ConfigAction::InitLogger by {
            if c.auto_start {
                assert(acts =~= seq![ConfigAction::WriteAutoStart(true)]);
            } else {
                assert(acts =~= Seq::<ConfigAction>::empty());
            }
        }
    }
}

/// Flipping a setting twice restores every setting.
pub proof fn lemma_toggle_twice_restores(c: Config)
    ensures
        (Config {
            unify_view_mode: !(Config { unify_view_mode: !c.unify_view_mode, ..c }).unify_view_mode,
            ..(Config { unify_view_mode: !c.unify_view_mode, ..c })
        }) == c,
        (Config {
            auto_start: !(Config { auto_start: !c.auto_start, ..c }).auto_start,
            ..(Config { auto_start: !c.auto_start, ..c })
        }) == c,
        (Config {
            enable_log: !(Config { enable_log: !c.enable_log, ..c }).enable_log,
            ..(Config { enable_log: !c.enable_log, ..c })
        }) == c,
{
}

} // verus!
