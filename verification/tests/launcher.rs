use kaiju::app::{App, AppConfig, ArrowKey, ProjectEntry, resolve_path};
use kaiju::list::StatefulList;

fn sample_names() -> Vec<String> {
    vec![
        String::from("kaiju"),
        String::from("typescript"),
        String::from("web-lang"),
    ]
}

fn sample_app() -> App {
    let projects = vec![
        ProjectEntry {
            name: String::from("kaiju"),
            path: String::from("~/code/cli/kaiju"),
        },
        ProjectEntry {
            name: String::from("typescript"),
            path: String::from("/opt/typescript"),
        },
    ];
    App::new(AppConfig { projects })
}

#[test]
fn first_next_selects_first_entry() {
    let mut list = StatefulList::with_items(sample_names());
    assert_eq!(list.cursor, None);
    list.next();
    assert_eq!(list.cursor, Some(0));
    assert_eq!(list.selected(), Some(&String::from("kaiju")));
}

#[test]
fn prev_from_first_index_wraps_to_last() {
    let mut list = StatefulList::with_items(sample_names());
    list.next();
    assert_eq!(list.cursor, Some(0));
    list.prev();
    assert_eq!(list.cursor, Some(2));
    assert_eq!(list.selected(), Some(&String::from("web-lang")));
}

#[test]
fn prev_from_unset_cursor_selects_first() {
    let mut forward = StatefulList::with_items(sample_names());
    let mut backward = StatefulList::with_items(sample_names());
    forward.next();
    backward.prev();
    assert_eq!(forward.cursor, Some(0));
    assert_eq!(backward.cursor, Some(0));
}

#[test]
fn full_cycle_returns_to_start() {
    let mut list = StatefulList::with_items(sample_names());
    list.next();
    assert_eq!(list.cursor, Some(0));
    for _ in 0..3 {
        list.next();
    }
    assert_eq!(list.cursor, Some(0));
}

#[test]
fn next_then_prev_round_trips() {
    let mut list = StatefulList::with_items(sample_names());
    list.next();
    list.next();
    assert_eq!(list.cursor, Some(1));
    list.next();
    list.prev();
    assert_eq!(list.cursor, Some(1));
    list.prev();
    list.next();
    assert_eq!(list.cursor, Some(1));
}

#[test]
fn round_trip_across_wrap_boundary() {
    let mut list = StatefulList::with_items(sample_names());
    list.next();
    assert_eq!(list.cursor, Some(0));
    list.next();
    assert_eq!(list.cursor, Some(1));
    list.prev();
    assert_eq!(list.cursor, Some(0));
    list.prev();
    assert_eq!(list.cursor, Some(2));
    list.next();
    assert_eq!(list.cursor, Some(0));
}

#[test]
fn empty_list_navigation_is_a_noop() {
    let mut list: StatefulList<String> = StatefulList::with_items(Vec::new());
    list.next();
    assert_eq!(list.cursor, None);
    list.prev();
    assert_eq!(list.cursor, None);
    assert_eq!(list.selected(), None);
}

#[test]
fn quit_key_terminates_and_later_keys_do_nothing() {
    let mut app = sample_app();
    app.on_key('j', false);
    assert!(!app.should_quit);
    assert_eq!(app.favorites.cursor, Some(1));
    app.on_key('q', false);
    assert!(app.should_quit);
    app.on_key('j', false);
    assert!(app.should_quit);
    assert_eq!(app.favorites.cursor, Some(1));
    app.on_arrow_key(ArrowKey::Down);
    assert_eq!(app.favorites.cursor, Some(1));
}

#[test]
fn control_c_terminates_but_plain_c_does_not() {
    let mut app = sample_app();
    app.on_key('c', false);
    assert!(!app.should_quit);
    app.on_key('c', true);
    assert!(app.should_quit);
}

#[test]
fn unrecognized_characters_are_ignored() {
    let mut app = sample_app();
    app.on_key('x', false);
    assert!(!app.should_quit);
    assert_eq!(app.favorites.cursor, Some(0));
}

#[test]
fn arrow_keys_move_and_horizontal_keys_do_not() {
    let mut app = sample_app();
    assert_eq!(app.favorites.cursor, Some(0));
    app.on_arrow_key(ArrowKey::Down);
    assert_eq!(app.favorites.cursor, Some(1));
    app.on_arrow_key(ArrowKey::Up);
    assert_eq!(app.favorites.cursor, Some(0));
    app.on_arrow_key(ArrowKey::Up);
    assert_eq!(app.favorites.cursor, Some(1));
    app.on_arrow_key(ArrowKey::Left);
    app.on_arrow_key(ArrowKey::Right);
    assert_eq!(app.favorites.cursor, Some(1));
    assert!(!app.should_quit);
}

#[test]
fn shorthand_path_resolves_against_home() {
    let path = String::from("~/code/cli/kaiju");
    let home = Some(String::from("/home/mike"));
    assert_eq!(resolve_path(&path, &home), "/home/mike/code/cli/kaiju");
}

#[test]
fn bare_shorthand_resolves_to_home_itself() {
    let path = String::from("~");
    let home = Some(String::from("/home/mike"));
    assert_eq!(resolve_path(&path, &home), "/home/mike");
}

#[test]
fn absolute_path_is_left_alone() {
    let path = String::from("/opt/typescript");
    let home = Some(String::from("/home/mike"));
    assert_eq!(resolve_path(&path, &home), "/opt/typescript");
}

#[test]
fn missing_home_leaves_shorthand_unresolved() {
    let path = String::from("~/code/cli/kaiju");
    assert_eq!(resolve_path(&path, &None), "~/code/cli/kaiju");
}

#[test]
fn empty_config_yields_no_selection() {
    let app = App::new(AppConfig { projects: Vec::new() });
    assert_eq!(app.favorites.cursor, None);
    assert!(app.favorites.selected().is_none());
    assert!(!app.should_quit);
}

#[test]
fn default_config_is_empty() {
    let config = AppConfig::default();
    assert!(config.projects.is_empty());
}

#[test]
fn enter_without_selection_does_nothing() {
    let app = App::new(AppConfig { projects: Vec::new() });
    assert_eq!(app.on_enter(), None);
    assert!(!app.should_quit);
}

#[test]
fn enter_resolves_the_selected_path_without_terminating() {
    let mut app = sample_app();
    app.on_key('j', false);
    assert_eq!(app.favorites.cursor, Some(1));
    let launched = app.on_enter();
    assert_eq!(launched, Some(String::from("/opt/typescript")));
    assert!(!app.should_quit);
    assert_eq!(app.status, None);
}

#[test]
fn successful_launch_terminates() {
    let mut app = sample_app();
    app.on_key('j', false);
    assert!(app.on_enter().is_some());
    app.on_launch_result(true);
    assert!(app.should_quit);
    assert_eq!(app.status, None);
    assert_eq!(app.on_enter(), None);
}

#[test]
fn failed_launch_reports_and_stays_running() {
    let mut app = sample_app();
    assert!(app.on_enter().is_some());
    app.on_launch_result(false);
    assert!(!app.should_quit);
    assert_eq!(app.status, Some(String::from("could not start the editor")));
    app.on_key('j', false);
    assert_eq!(app.favorites.cursor, Some(1));
    assert!(!app.should_quit);
}

#[test]
fn launch_result_after_termination_changes_nothing() {
    let mut app = sample_app();
    app.on_key('q', false);
    assert!(app.should_quit);
    app.on_launch_result(false);
    assert!(app.should_quit);
    assert_eq!(app.status, None);
}

#[test]
fn app_state_stays_well_formed() {
    let mut app = sample_app();
    assert!(app.is_well_formed());
    app.on_key('k', false);
    app.on_arrow_key(ArrowKey::Down);
    assert!(app.is_well_formed());
}
