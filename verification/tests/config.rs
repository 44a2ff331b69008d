use tabify_explorer::config::{
    is_auto_start_enabled, is_log_enabled, is_unify_view_mode_enabled, load_config,
    parse_config, render_config, set_auto_start_enabled, set_log_enabled,
    set_unify_view_mode_enabled, toggle_auto_start, toggle_log_enabled, toggle_unify_view_mode,
    Config, ConfigAction, ConfigSource,
};

fn all_configs() -> Vec<Config> {
    let mut v = Vec::new();
    for u in [false, true] {
        for a in [false, true] {
            for l in [false, true] {
                v.push(Config { unify_view_mode: u, auto_start: a, enable_log: l });
            }
        }
    }
    v
}

#[test]
fn defaults() {
    let c = Config::default();
    assert!(is_unify_view_mode_enabled(&c));
    assert!(!is_auto_start_enabled(&c));
    assert!(!is_log_enabled(&c));
}

#[test]
fn render_exact_text() {
    let c = Config::default();
    assert_eq!(
        render_config(&c),
        "# TabifyExplorer 設定ファイル\nunify_view_mode = true\nauto_start = false\nenable_log = false\n"
    );
}

#[test]
fn render_then_parse_round_trip() {
    for c in all_configs() {
        assert_eq!(parse_config(&render_config(&c)), c);
    }
}

#[test]
fn parse_substrings() {
    assert_eq!(
        parse_config("unify_view_mode = false\nenable_log = true"),
        Config { unify_view_mode: false, auto_start: false, enable_log: true }
    );
    assert_eq!(parse_config(""), Config::default());
    assert_eq!(
        parse_config("auto_start=true\nunify_view_mode =false"),
        Config::default()
    );
}

#[test]
fn load_cases() {
    let cur = Config { unify_view_mode: false, auto_start: false, enable_log: true };
    let (c, a) = load_config(&cur, ConfigSource::Missing);
    assert_eq!(c, cur);
    assert_eq!(a, vec![ConfigAction::SaveConfig]);
    let (c, a) = load_config(&cur, ConfigSource::Unreadable);
    assert_eq!(c, cur);
    assert!(a.is_empty());
    let (c, a) = load_config(&cur, ConfigSource::Content("auto_start = true".to_string()));
    assert_eq!(c, Config { unify_view_mode: true, auto_start: true, enable_log: false });
    assert_eq!(a, vec![ConfigAction::WriteAutoStart(true)]);
    let (c, a) = load_config(&cur, ConfigSource::Content(String::new()));
    assert_eq!(c, Config::default());
    assert!(a.is_empty());
}

#[test]
fn load_opens_log_when_enabled() {
    let cur = Config::default();
    let (c, a) = load_config(&cur, ConfigSource::Content("enable_log = true".to_string()));
    assert!(is_log_enabled(&c));
    assert_eq!(a, vec![ConfigAction::InitLogger]);
    let text = render_config(&Config { unify_view_mode: false, auto_start: true, enable_log: true });
    let (c, a) = load_config(&cur, ConfigSource::Content(text));
    assert_eq!(c, Config { unify_view_mode: false, auto_start: true, enable_log: true });
    assert_eq!(a, vec![ConfigAction::WriteAutoStart(true), ConfigAction::InitLogger]);
}

#[test]
fn setters_and_actions() {
    let mut c = Config::default();
    assert_eq!(set_unify_view_mode_enabled(&mut c, false), vec![ConfigAction::SaveConfig]);
    assert!(!c.unify_view_mode);
    assert_eq!(
        set_auto_start_enabled(&mut c, true),
        vec![ConfigAction::WriteAutoStart(true), ConfigAction::SaveConfig]
    );
    assert!(c.auto_start);
    assert_eq!(
        set_log_enabled(&mut c, true),
        vec![ConfigAction::InitLogger, ConfigAction::SaveConfig]
    );
    assert_eq!(set_log_enabled(&mut c, false), vec![ConfigAction::SaveConfig]);
    assert_eq!(c, Config { unify_view_mode: false, auto_start: true, enable_log: false });
}

#[test]
fn toggles_twice_restore() {
    for start in all_configs() {
        let mut c = start;
        let (v1, _) = toggle_unify_view_mode(&mut c);
        assert_eq!(v1, !start.unify_view_mode);
        let (v2, _) = toggle_unify_view_mode(&mut c);
        assert_eq!(v2, start.unify_view_mode);
        let (v, a) = toggle_auto_start(&mut c);
        assert_eq!(a, vec![ConfigAction::WriteAutoStart(v), ConfigAction::SaveConfig]);
        toggle_auto_start(&mut c);
        let (v, a) = toggle_log_enabled(&mut c);
        if v {
            assert_eq!(a, vec![ConfigAction::InitLogger, ConfigAction::SaveConfig]);
        } else {
            assert_eq!(a, vec![ConfigAction::SaveConfig]);
        }
        toggle_log_enabled(&mut c);
        assert_eq!(c, start);
    }
}
