use pgmon::{
    decode_key, Command, Event, Key, PGStatActivity, PGSystemInfo, RawKey, Selection,
    StatActivityView,
};

fn info(version: &str, conns: i64) -> PGSystemInfo {
    PGSystemInfo {
        version: version.to_string(),
        uptime: "1 day 02:03:04".to_string(),
        nb_of_conn: conns,
    }
}

fn activity(pid: i32, state: &str) -> PGStatActivity {
    PGStatActivity {
        datname: "postgres".to_string(),
        pid,
        usename: "alice".to_string(),
        client_addr: "127.0.0.1/32".to_string(),
        client_port: 5433,
        xact_start: None,
        backend_duration: "00:01:02:003".to_string(),
        query_duration: "00:00:01:500".to_string(),
        state: state.to_string(),
        query: "SELECT 1".to_string(),
    }
}

fn rows(n: i32) -> Vec<PGStatActivity> {
    (0..n).map(|i| activity(100 + i, "idle")).collect()
}

fn view_at(n: i32, index: usize) -> StatActivityView {
    let mut v = StatActivityView::new(info("16", 1), rows(n));
    for _ in 0..index {
        v.on_event(Event::Input(Key::Down));
    }
    assert_eq!(v.selected(), Some(index));
    v
}

#[test]
fn down_on_last_row_wraps_to_first() {
    let mut v = view_at(5, 4);
    assert_eq!(v.on_event(Event::Input(Key::Down)), Command::Redraw);
    assert_eq!(v.selected(), Some(0));
}

#[test]
fn up_on_first_row_wraps_to_last() {
    let mut v = view_at(5, 0);
    assert_eq!(v.on_event(Event::Input(Key::Up)), Command::Redraw);
    assert_eq!(v.selected(), Some(4));
}

#[test]
fn navigation_stays_in_range_over_a_long_run() {
    let mut v = view_at(3, 1);
    let keys = [Key::Up, Key::Up, Key::Up, Key::Down, Key::Down, Key::Up, Key::Down, Key::Down];
    for k in keys {
        v.on_event(Event::Input(k));
        let i = v.selected().unwrap();
        assert!(i < 3);
    }
    // 1 -> 0 -> 2 -> 1 -> 2 -> 0 -> 2 -> 0 -> 1
    assert_eq!(v.selected(), Some(1));
}

#[test]
fn navigation_on_empty_table_is_a_no_op() {
    let mut v = StatActivityView::new(info("16", 0), vec![]);
    assert_eq!(v.selected(), None);
    assert_eq!(v.on_event(Event::Input(Key::Down)), Command::Redraw);
    assert_eq!(v.selected(), None);
    assert_eq!(v.on_event(Event::Input(Key::Up)), Command::Redraw);
    assert_eq!(v.selected(), None);
}

#[test]
fn refresh_to_no_rows_clears_selection() {
    let mut v = view_at(3, 2);
    assert_eq!(v.on_event(Event::Tick), Command::Fetch);
    let r: Result<(), String> = v.apply_refresh(Ok((info("16", 0), vec![])));
    assert!(r.is_ok());
    assert_eq!(v.selected(), None);
    assert!(v.activities().is_empty());
}

#[test]
fn refresh_to_fewer_rows_clamps_selection() {
    let mut v = view_at(5, 4);
    let r: Result<(), String> = v.apply_refresh(Ok((info("16", 3), rows(3))));
    assert!(r.is_ok());
    assert_eq!(v.selected(), Some(2));
}

#[test]
fn refresh_keeps_selection_by_position() {
    let mut v = view_at(5, 1);
    let r: Result<(), String> = v.apply_refresh(Ok((info("17", 9), rows(4))));
    assert!(r.is_ok());
    assert_eq!(v.selected(), Some(1));
    assert_eq!(v.system_info().version, "17");
    assert_eq!(v.system_info().nb_of_conn, 9);
    assert_eq!(v.activities().len(), 4);
}

#[test]
fn startup_then_down_twice_then_wrap() {
    let mut v = StatActivityView::new(info("16", 3), rows(3));
    assert_eq!(v.selected(), Some(0));
    v.on_event(Event::Input(Key::Down));
    v.on_event(Event::Input(Key::Down));
    assert_eq!(v.selected(), Some(2));
    v.on_event(Event::Input(Key::Down));
    assert_eq!(v.selected(), Some(0));
}

#[test]
fn tick_with_one_row_clamps_to_first() {
    let mut v = view_at(3, 2);
    assert_eq!(v.on_event(Event::Tick), Command::Fetch);
    let r: Result<(), String> = v.apply_refresh(Ok((info("16", 1), rows(1))));
    assert!(r.is_ok());
    assert_eq!(v.selected(), Some(0));
}

#[test]
fn quit_stops_without_fetch_or_change() {
    let mut v = view_at(3, 1);
    assert_eq!(v.on_event(Event::Input(Key::Quit)), Command::Quit);
    assert_eq!(v.selected(), Some(1));
    assert_eq!(v.activities().len(), 3);
    assert_eq!(v.on_event(Event::Input(decode_key(RawKey::Ctrl('c')))), Command::Quit);
}

#[test]
fn failed_refresh_leaves_state_untouched() {
    let mut v = view_at(3, 2);
    assert_eq!(v.on_event(Event::Input(Key::Refresh)), Command::Fetch);
    let r = v.apply_refresh(Err("connection lost".to_string()));
    assert_eq!(r, Err("connection lost".to_string()));
    assert_eq!(v.selected(), Some(2));
    assert_eq!(v.activities().len(), 3);
    assert_eq!(v.activities()[2].pid, 102);
    assert_eq!(v.system_info().version, "16");
}

#[test]
fn other_key_only_redraws() {
    let mut v = view_at(3, 1);
    assert_eq!(v.on_event(Event::Input(Key::Other)), Command::Redraw);
    assert_eq!(v.selected(), Some(1));
}

#[test]
fn selection_alone_clamps_and_wraps() {
    let mut s = Selection::new();
    assert_eq!(s.selected(), None);
    assert_eq!(s.row_count(), 0);
    s.next();
    assert_eq!(s.selected(), None);
    s.resize(2);
    assert_eq!(s.selected(), Some(0));
    s.previous();
    assert_eq!(s.selected(), Some(1));
    s.next();
    assert_eq!(s.selected(), Some(0));
    s.resize(0);
    assert_eq!(s.selected(), None);
}
