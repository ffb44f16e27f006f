use jj_starship::config::{
    Config, DisplayFlags, DEFAULT_GIT_SYMBOL, DEFAULT_ID_LENGTH, DEFAULT_JJ_SYMBOL,
};

fn shown() -> DisplayFlags {
    DisplayFlags::default()
}

#[test]
fn default_flags_show_everything() {
    let flags = DisplayFlags::default();
    assert!(!flags.no_prefix);
    assert!(!flags.no_name);
    assert!(!flags.no_id);
    assert!(!flags.no_status);
    assert!(!flags.no_color);
    assert!(!flags.no_prefix_color);
}

#[test]
fn nothing_asked_for_gives_the_defaults() {
    let config = Config::new(None, None, Vec::new(), None, None, false, shown(), shown());
    assert_eq!(config.truncate_name, 0);
    assert_eq!(config.id_length, 8);
    assert_eq!(config.id_length, DEFAULT_ID_LENGTH);
    assert!(config.strip_prefixes.is_empty());
    assert_eq!(config.jj_symbol, "\u{f0d9b} ");
    assert_eq!(config.jj_symbol, DEFAULT_JJ_SYMBOL);
    assert_eq!(config.git_symbol, " ");
    assert_eq!(config.git_symbol, DEFAULT_GIT_SYMBOL);
    assert!(!config.no_symbol);
    assert_eq!(config.jj_display, shown());
    assert_eq!(config.git_display, shown());
}

#[test]
fn what_is_asked_for_replaces_the_defaults() {
    let jj_display = DisplayFlags { no_name: true, no_color: true, ..shown() };
    let git_display = DisplayFlags { no_id: true, no_prefix_color: true, ..shown() };
    let config = Config::new(
        Some(12),
        Some(4),
        vec![String::from("feature/"), String::from("fix/")],
        Some(String::from("jj:")),
        Some(String::from("git:")),
        false,
        jj_display,
        git_display,
    );
    assert_eq!(config.truncate_name, 12);
    assert_eq!(config.id_length, 4);
    assert_eq!(config.strip_prefixes, vec!["feature/", "fix/"]);
    assert_eq!(config.jj_symbol, "jj:");
    assert_eq!(config.git_symbol, "git:");
    assert_eq!(config.jj_display, jj_display);
    assert_eq!(config.git_display, git_display);
}

#[test]
fn no_symbol_wins_over_a_custom_symbol() {
    let config = Config::new(
        None,
        None,
        Vec::new(),
        Some(String::from("CUSTOM")),
        None,
        true,
        shown(),
        shown(),
    );
    assert_eq!(config.jj_symbol, "");
    assert_eq!(config.git_symbol, "");
    assert!(config.no_symbol);
}

#[test]
fn no_symbol_wins_over_both_custom_symbols() {
    let config = Config::new(
        None,
        None,
        Vec::new(),
        Some(String::from("CUSTOM")),
        Some(String::from("OTHER")),
        true,
        shown(),
        shown(),
    );
    assert_eq!(config.jj_symbol, "");
    assert_eq!(config.git_symbol, "");
}

#[test]
fn an_empty_symbol_may_be_asked_for() {
    let config = Config::new(
        None,
        None,
        Vec::new(),
        Some(String::new()),
        None,
        false,
        shown(),
        shown(),
    );
    assert_eq!(config.jj_symbol, "");
    assert_eq!(config.git_symbol, " ");
}

#[test]
fn the_two_flag_sets_stay_apart() {
    let hidden = DisplayFlags { no_status: true, ..shown() };
    let config = Config::new(None, None, Vec::new(), None, None, false, hidden, shown());
    assert!(config.jj_display.no_status);
    assert!(!config.git_display.no_status);
}
