use pomodorust::config::Cfg;
use pomodorust::events::Key;
use pomodorust::session::Pomodoro;
use pomodorust::state::{App, State};

fn cfg() -> Cfg {
    Cfg {
        working: 1_500_000,
        short_break: 300_000,
        long_break: 600_000,
        pause_key: 'p',
        quit_key: 'q',
    }
}

fn record(id: i32) -> Pomodoro {
    Pomodoro {
        id,
        created_at: 1_700_000_000,
        duration: 25,
        ticket_id: None,
        note: None,
    }
}

#[test]
fn new_app_starts_running_with_zero_clocks() {
    let app = App::new(7, vec![record(1), record(2)]);
    assert_eq!(app.current_pomodoro, 0);
    assert_eq!(app.current_break, 0);
    assert_eq!(app.todays_pomodoros, 7);
    assert_eq!(app.state, State::Running);
    assert_eq!(app.selected_tab, 0);
    assert_eq!(app.selected_pomodoro, Some(0));
    assert_eq!(app.pomodoros.len(), 2);
    assert_eq!(app.tabs(), &vec!["Pomodoro".to_string(), "Statistics".to_string()]);
}

#[test]
fn new_app_with_no_records_selects_nothing() {
    let app = App::new(0, Vec::new());
    assert_eq!(app.selected_pomodoro, None);
}

#[test]
fn backtab_rotates_tabs_and_pauses() {
    let cfg = cfg();
    let mut app = App::new(0, Vec::new());
    app.tick(&cfg, 4000);

    let quit = app.key_handler(&cfg, Key::BackTab);
    assert!(!quit);
    assert_eq!(app.selected_tab, 1);
    assert_eq!(app.state, State::Paused(None));
    assert_eq!(app.current_pomodoro, 4000);

    app.key_handler(&cfg, Key::BackTab);
    assert_eq!(app.selected_tab, 0);
    assert_eq!(app.state, State::Paused(None));
}

#[test]
fn up_and_down_move_the_selection_within_bounds() {
    let cfg = cfg();
    let mut app = App::new(0, vec![record(1), record(2), record(3)]);
    app.key_handler(&cfg, Key::BackTab);
    assert_eq!(app.selected_tab, 1);
    assert_eq!(app.selected_pomodoro, Some(0));

    app.key_handler(&cfg, Key::Up);
    assert_eq!(app.selected_pomodoro, Some(0));

    app.key_handler(&cfg, Key::Down);
    assert_eq!(app.selected_pomodoro, Some(1));
    app.key_handler(&cfg, Key::Down);
    assert_eq!(app.selected_pomodoro, Some(2));
    app.key_handler(&cfg, Key::Down);
    assert_eq!(app.selected_pomodoro, Some(2));

    app.key_handler(&cfg, Key::Up);
    assert_eq!(app.selected_pomodoro, Some(1));
}

#[test]
fn selection_appears_on_first_move_when_records_exist() {
    let cfg = cfg();
    let mut app = App::new(0, vec![record(1)]);
    app.selected_pomodoro = None;
    app.key_handler(&cfg, Key::BackTab);
    app.key_handler(&cfg, Key::Down);
    assert_eq!(app.selected_pomodoro, Some(0));

    let mut app = App::new(0, vec![record(1)]);
    app.selected_pomodoro = None;
    app.key_handler(&cfg, Key::BackTab);
    app.key_handler(&cfg, Key::Up);
    assert_eq!(app.selected_pomodoro, Some(0));
}

#[test]
fn selection_stays_empty_on_an_empty_list() {
    let cfg = cfg();
    let mut app = App::new(0, Vec::new());
    app.key_handler(&cfg, Key::BackTab);
    app.key_handler(&cfg, Key::Down);
    assert_eq!(app.selected_pomodoro, None);
    app.key_handler(&cfg, Key::Up);
    assert_eq!(app.selected_pomodoro, None);
}

#[test]
fn recording_a_session_appends_and_changes_nothing_else() {
    let cfg = cfg();
    let mut app = App::new(1, vec![record(1)]);
    app.tick(&cfg, 8000);
    app.record_session(record(2));
    assert_eq!(app.pomodoros.len(), 2);
    assert_eq!(app.pomodoros[1].id, 2);
    assert_eq!(app.current_pomodoro, 8000);
    assert_eq!(app.todays_pomodoros, 1);
    assert_eq!(app.state, State::Running);
    assert_eq!(app.selected_pomodoro, Some(0));
}

#[test]
fn selection_keys_do_nothing_on_the_timer_tab() {
    let cfg = cfg();
    let mut app = App::new(0, vec![record(1), record(2)]);
    assert_eq!(app.selected_tab, 0);
    app.key_handler(&cfg, Key::Down);
    assert_eq!(app.selected_pomodoro, Some(0));
    app.key_handler(&cfg, Key::Up);
    assert_eq!(app.selected_pomodoro, Some(0));
}
