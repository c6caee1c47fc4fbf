use rustop::processes::ProcessSorting;
use rustop::widgets::App;

#[test]
fn new_app_defaults_to_cpu_descending() {
    let app = App::new("dashboard");
    assert!(!app.should_quit);
    assert_eq!(app.process_sorting_type, ProcessSorting::CPU);
    assert!(app.process_sorting_reverse);
    assert!(!app.to_be_resorted);
}

#[test]
fn quit_key_sets_should_quit_only() {
    let mut app = App::new("dashboard");
    app.on_key('q');
    assert!(app.should_quit);
    assert_eq!(app.process_sorting_type, ProcessSorting::CPU);
    assert!(app.process_sorting_reverse);
    assert!(!app.to_be_resorted);
}

#[test]
fn same_sort_key_twice_restores_direction() {
    let mut app = App::new("dashboard");
    let original = app.process_sorting_reverse;
    app.on_key('c');
    assert_eq!(app.process_sorting_reverse, !original);
    assert!(app.to_be_resorted);
    app.on_key('c');
    assert_eq!(app.process_sorting_reverse, original);
    assert_eq!(app.process_sorting_type, ProcessSorting::CPU);
}

#[test]
fn new_sort_key_takes_its_default_direction() {
    let mut app = App::new("dashboard");
    app.on_key('m');
    assert_eq!(app.process_sorting_type, ProcessSorting::MEM);
    assert!(app.process_sorting_reverse);
    app.on_key('p');
    assert_eq!(app.process_sorting_type, ProcessSorting::PID);
    assert!(!app.process_sorting_reverse);
    app.on_key('n');
    assert_eq!(app.process_sorting_type, ProcessSorting::NAME);
    assert!(!app.process_sorting_reverse);
    app.on_key('c');
    assert_eq!(app.process_sorting_type, ProcessSorting::CPU);
    assert!(app.process_sorting_reverse);
}

#[test]
fn sort_scenario_cpu_then_pid() {
    // Pressing `c` while already sorting by CPU descending flips to
    // ascending and marks the view dirty; pressing `p` then moves to
    // PID with its ascending default.
    let mut app = App::new("dashboard");
    assert_eq!(app.process_sorting_type, ProcessSorting::CPU);
    assert!(app.process_sorting_reverse);
    app.on_key('c');
    assert_eq!(app.process_sorting_type, ProcessSorting::CPU);
    assert!(!app.process_sorting_reverse);
    assert!(app.to_be_resorted);
    app.on_key('p');
    assert_eq!(app.process_sorting_type, ProcessSorting::PID);
    assert!(!app.process_sorting_reverse);
    assert!(app.to_be_resorted);
}

#[test]
fn navigation_and_unknown_keys_change_nothing() {
    let mut app = App::new("dashboard");
    for key in ['h', 'j', 'k', 'l', 'x', ' '] {
        app.on_key(key);
        assert!(!app.should_quit);
        assert_eq!(app.process_sorting_type, ProcessSorting::CPU);
        assert!(app.process_sorting_reverse);
        assert!(!app.to_be_resorted);
    }
    app.on_left();
    app.on_right();
    app.on_up();
    app.on_down();
    assert!(!app.to_be_resorted);
}

#[test]
fn dirty_flag_is_never_cleared_by_the_controller() {
    let mut app = App::new("dashboard");
    app.on_key('m');
    assert!(app.to_be_resorted);
    app.on_key('m');
    assert!(app.to_be_resorted);
    app.on_key('q');
    assert!(app.to_be_resorted);
}
