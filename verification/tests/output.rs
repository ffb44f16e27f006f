use jj_starship::color::{BLUE, BRIGHT_BLACK, BRIGHT_MAGENTA, GREEN, PURPLE, RED, RESET};
use jj_starship::config::{Config, DisplayFlags};
use jj_starship::git::GitInfo;
use jj_starship::jj::JjInfo;
use jj_starship::output::{
    display_name, format_git, format_jj, render, status_summary, strip_prefix, truncate_name,
    Health,
};

const SYMBOL: &str = "\u{f0d9b} ";

fn plain() -> DisplayFlags {
    DisplayFlags { no_color: true, ..DisplayFlags::default() }
}

fn config_with(jj_display: DisplayFlags) -> Config {
    Config::new(None, None, Vec::new(), None, None, false, jj_display, jj_display)
}

fn naming(strip_prefixes: &[&str], truncate_name: usize) -> Config {
    Config::new(
        Some(truncate_name),
        None,
        strip_prefixes.iter().map(|prefix| String::from(*prefix)).collect(),
        None,
        None,
        false,
        plain(),
        plain(),
    )
}

fn healthy() -> Health {
    Health { conflict: false, divergent: false, empty_desc: false, unsynced: false }
}

fn on_main() -> JjInfo {
    JjInfo {
        change_id: String::from("abc123de"),
        unique_prefix: 3,
        bookmark: Some(String::from("main")),
        empty_desc: false,
        conflict: false,
        divergent: false,
        has_remote: true,
        is_synced: true,
    }
}

fn without_colour(line: &str) -> String {
    let mut text = String::from(line);
    for code in [RESET, PURPLE, GREEN, RED, BLUE, BRIGHT_MAGENTA, BRIGHT_BLACK] {
        text = text.replace(code, "");
    }
    text
}

#[test]
fn prefix_is_stripped_and_the_name_fits_the_limit() {
    let config = naming(&["feature/"], 5);
    assert_eq!(display_name("feature/login", &config), "login");
}

#[test]
fn prefix_is_stripped_and_the_name_is_cut() {
    let config = naming(&["feature/"], 3);
    assert_eq!(display_name("feature/login", &config), "log");
}

#[test]
fn name_without_limit_is_left_whole() {
    let config = naming(&["feature/"], 0);
    assert_eq!(display_name("feature/login", &config), "login");
    assert_eq!(display_name("release/login", &config), "release/login");
}

#[test]
fn first_fitting_prefix_in_the_list_is_taken() {
    let prefixes = vec![String::from("fix/"), String::from("feat"), String::from("feature/")];
    assert_eq!(strip_prefix("feature/login", &prefixes), "ure/login");
    let prefixes = vec![String::from("feature/"), String::from("feat")];
    assert_eq!(strip_prefix("feature/login", &prefixes), "login");
}

#[test]
fn one_prefix_at_most_is_taken_off() {
    let prefixes = vec![String::from("a/"), String::from("b/")];
    assert_eq!(strip_prefix("a/b/c", &prefixes), "b/c");
}

#[test]
fn prefix_in_the_middle_does_not_fit() {
    let prefixes = vec![String::from("feature/")];
    assert_eq!(strip_prefix("my-feature/login", &prefixes), "my-feature/login");
    assert_eq!(strip_prefix("feature", &prefixes), "feature");
    assert_eq!(strip_prefix("feature/", &prefixes), "");
    assert_eq!(strip_prefix("main", &Vec::new()), "main");
}

#[test]
fn truncate_counts_characters() {
    assert_eq!(truncate_name("\u{e9}t\u{e9}s", 3), "\u{e9}t\u{e9}");
    assert_eq!(truncate_name("login", 0), "login");
    assert_eq!(truncate_name("login", 5), "login");
    assert_eq!(truncate_name("login", 9), "login");
    assert_eq!(truncate_name("login", 1), "l");
}

#[test]
fn each_flag_has_its_token() {
    assert_eq!(status_summary(healthy()), "");
    assert_eq!(status_summary(Health { conflict: true, ..healthy() }), "!");
    assert_eq!(status_summary(Health { divergent: true, ..healthy() }), "\u{21d4}");
    assert_eq!(status_summary(Health { empty_desc: true, ..healthy() }), "?");
    assert_eq!(status_summary(Health { unsynced: true, ..healthy() }), "\u{21e1}");
}

#[test]
fn tokens_come_in_a_fixed_order() {
    let all = Health { conflict: true, divergent: true, empty_desc: true, unsynced: true };
    assert_eq!(status_summary(all), "!\u{21d4}?\u{21e1}");
}

#[test]
fn healthy_revision_on_a_synced_bookmark() {
    let line = format_jj(&on_main(), &config_with(plain()));
    assert_eq!(line, format!("{SYMBOL}on main abc123de"));
}

#[test]
fn default_config_shows_the_same_text_in_colour() {
    let line = format_jj(&on_main(), &config_with(DisplayFlags::default()));
    assert_eq!(without_colour(&line), format!("{SYMBOL}on main abc123de"));
    assert_eq!(
        line,
        format!(
            "{BLUE}{SYMBOL}{RESET}on {PURPLE}main{RESET} \
             {BRIGHT_MAGENTA}abc{RESET}{BRIGHT_BLACK}123de{RESET}"
        )
    );
}

#[test]
fn line_ends_without_a_line_break() {
    let line = format_jj(&on_main(), &config_with(plain()));
    assert!(!line.ends_with('\n'));
    assert!(!line.contains('\n'));
}

#[test]
fn line_of_every_flag_raised_holds_no_line_break() {
    let info = JjInfo {
        conflict: true,
        divergent: true,
        empty_desc: true,
        is_synced: false,
        ..on_main()
    };
    let line = format_jj(&info, &config_with(DisplayFlags::default()));
    assert!(!line.contains('\n'));
    let line = format_jj(&info, &config_with(plain()));
    assert_eq!(line, format!("{SYMBOL}on main abc123de [!\u{21d4}?\u{21e1}]"));
}

#[test]
fn no_status_hides_a_conflict() {
    let info = JjInfo { conflict: true, ..on_main() };
    let hidden = DisplayFlags { no_status: true, ..plain() };
    let line = format_jj(&info, &config_with(hidden));
    assert_eq!(line, format!("{SYMBOL}on main abc123de"));
    assert!(!line.contains('['));
    assert!(!line.contains(']'));
    assert_eq!(line, format_jj(&on_main(), &config_with(hidden)));
}

#[test]
fn no_status_hides_every_flag_in_colour_too() {
    let info = JjInfo {
        conflict: true,
        divergent: true,
        empty_desc: true,
        is_synced: false,
        ..on_main()
    };
    let hidden = DisplayFlags { no_status: true, ..DisplayFlags::default() };
    let line = format_jj(&info, &config_with(hidden));
    assert!(!without_colour(&line).contains('['));
    assert!(!line.contains(RED));
    assert_eq!(line, format_jj(&on_main(), &config_with(hidden)));
}

#[test]
fn status_stands_in_brackets_behind_the_identifier() {
    let info = JjInfo { conflict: true, empty_desc: true, ..on_main() };
    let line = format_jj(&info, &config_with(plain()));
    assert_eq!(line, format!("{SYMBOL}on main abc123de [!?]"));
}

#[test]
fn status_is_red() {
    let info = JjInfo { divergent: true, ..on_main() };
    let line = format_jj(&info, &config_with(DisplayFlags::default()));
    assert!(line.ends_with(&format!(" {RED}[\u{21d4}]{RESET}")));
}

#[test]
fn unsynced_needs_a_remote() {
    let behind = JjInfo { has_remote: true, is_synced: false, ..on_main() };
    let line = format_jj(&behind, &config_with(plain()));
    assert_eq!(line, format!("{SYMBOL}on main abc123de [\u{21e1}]"));
    let local = JjInfo { has_remote: false, is_synced: false, ..on_main() };
    let line = format_jj(&local, &config_with(plain()));
    assert_eq!(line, format!("{SYMBOL}on main abc123de"));
}

#[test]
fn no_prefix_leaves_out_symbol_and_on() {
    let flags = DisplayFlags { no_prefix: true, ..plain() };
    assert_eq!(format_jj(&on_main(), &config_with(flags)), "main abc123de");
}

#[test]
fn no_name_leaves_out_the_bookmark() {
    let flags = DisplayFlags { no_name: true, ..plain() };
    assert_eq!(format_jj(&on_main(), &config_with(flags)), format!("{SYMBOL}on abc123de"));
}

#[test]
fn missing_bookmark_leaves_no_gap() {
    let info = JjInfo { bookmark: None, has_remote: false, ..on_main() };
    assert_eq!(format_jj(&info, &config_with(plain())), format!("{SYMBOL}on abc123de"));
}

#[test]
fn no_id_leaves_out_the_identifier() {
    let flags = DisplayFlags { no_id: true, ..plain() };
    assert_eq!(format_jj(&on_main(), &config_with(flags)), format!("{SYMBOL}on main"));
    let info = JjInfo { conflict: true, ..on_main() };
    assert_eq!(format_jj(&info, &config_with(flags)), format!("{SYMBOL}on main [!]"));
}

#[test]
fn everything_hidden_leaves_an_empty_line() {
    let flags = DisplayFlags {
        no_prefix: true,
        no_name: true,
        no_id: true,
        no_status: true,
        ..plain()
    };
    assert_eq!(format_jj(&on_main(), &config_with(flags)), "");
}

#[test]
fn only_the_status_is_shown() {
    let flags = DisplayFlags { no_prefix: true, no_name: true, no_id: true, ..plain() };
    let info = JjInfo { conflict: true, ..on_main() };
    assert_eq!(format_jj(&info, &config_with(flags)), "[!]");
}

#[test]
fn no_symbol_keeps_the_word_on() {
    let config = Config::new(
        None,
        None,
        Vec::new(),
        Some(String::from("CUSTOM")),
        None,
        true,
        DisplayFlags::default(),
        DisplayFlags::default(),
    );
    let line = format_jj(&on_main(), &config);
    assert!(line.starts_with("on "));
    assert_eq!(without_colour(&line), "on main abc123de");
}

#[test]
fn custom_symbol_is_shown() {
    let config =
        Config::new(None, None, Vec::new(), Some(String::from("jj ")), None, false, plain(), plain());
    assert_eq!(format_jj(&on_main(), &config), "jj on main abc123de");
}

#[test]
fn one_tone_identifier_is_green() {
    let flags = DisplayFlags { no_prefix_color: true, no_prefix: true, no_name: true, ..DisplayFlags::default() };
    let line = format_jj(&on_main(), &config_with(flags));
    assert_eq!(line, format!("{GREEN}abc123de{RESET}"));
}

#[test]
fn two_tone_identifier_splits_at_the_unique_prefix() {
    let flags = DisplayFlags { no_prefix: true, no_name: true, ..DisplayFlags::default() };
    let line = format_jj(&on_main(), &config_with(flags));
    assert_eq!(line, format!("{BRIGHT_MAGENTA}abc{RESET}{BRIGHT_BLACK}123de{RESET}"));
    let unknown = JjInfo { unique_prefix: 0, ..on_main() };
    let line = format_jj(&unknown, &config_with(flags));
    assert_eq!(line, format!("{BRIGHT_BLACK}abc123de{RESET}"));
    let whole = JjInfo { unique_prefix: 8, ..on_main() };
    let line = format_jj(&whole, &config_with(flags));
    assert_eq!(line, format!("{BRIGHT_MAGENTA}abc123de{RESET}"));
    let beyond = JjInfo { unique_prefix: 30, ..on_main() };
    let line = format_jj(&beyond, &config_with(flags));
    assert_eq!(line, format!("{BRIGHT_MAGENTA}abc123de{RESET}"));
}

#[test]
fn name_is_stripped_and_cut_in_the_line() {
    let config = naming(&["feature/"], 3);
    let info = JjInfo { bookmark: Some(String::from("feature/login")), ..on_main() };
    assert_eq!(format_jj(&info, &config), format!("{SYMBOL}on log abc123de"));
}

#[test]
fn git_line_uses_the_git_symbol_and_flags() {
    let info = GitInfo {
        commit_id: String::from("a3b4c5d6"),
        unique_prefix: 4,
        branch: Some(String::from("main")),
        conflict: false,
        diverged: false,
        has_upstream: true,
        is_synced: true,
    };
    let jj_hidden = DisplayFlags { no_id: true, no_name: true, ..plain() };
    let config = Config::new(
        None,
        None,
        Vec::new(),
        None,
        Some(String::from("git ")),
        false,
        jj_hidden,
        plain(),
    );
    assert_eq!(format_git(&info, &config), "git on main a3b4c5d6");
    let info = GitInfo { conflict: true, diverged: true, is_synced: false, ..info };
    assert_eq!(format_git(&info, &config), "git on main a3b4c5d6 [!\u{21d4}\u{21e1}]");
}

#[test]
fn git_line_of_a_detached_head() {
    let info = GitInfo {
        commit_id: String::from("a3b4c5d6"),
        unique_prefix: 4,
        branch: None,
        conflict: false,
        diverged: false,
        has_upstream: false,
        is_synced: true,
    };
    assert_eq!(format_git(&info, &config_with(plain())), " on a3b4c5d6");
}

#[test]
fn render_takes_the_parts_as_they_are() {
    let config = config_with(plain());
    let name = String::from("main");
    let line = render(
        Some(&name),
        "abc123de",
        3,
        Health { conflict: true, ..healthy() },
        ">",
        plain(),
        &config,
    );
    assert_eq!(line, ">on main abc123de [!]");
    let line = render(None, "", 0, healthy(), "", plain(), &config);
    assert_eq!(line, "on ");
}
