use quebar::client::{ClientAction, ClientState, handle_text};
use quebar::clock::{ClockFields, read_clock};
use quebar::coalescer::Coalescer;
use quebar::codec::Workspace;
use quebar::display::{MyTaskbar, seconds_until_next_minute};

fn clock(unix: u64, hour: u32, minute: u32, month: u32, day: u32, year: u32) -> ClockFields {
    ClockFields { unix, hour, minute, month, day, year }
}

#[test]
fn seconds_until_next_minute_follows_the_formula() {
    assert_eq!(seconds_until_next_minute(125), 55);
    assert_eq!(seconds_until_next_minute(180), 60);
    assert_eq!(seconds_until_next_minute(0), 60);
    assert_eq!(seconds_until_next_minute(59), 1);
}

#[test]
fn new_taskbar_shows_full_battery_and_nothing_else() {
    let t = MyTaskbar::new();
    assert_eq!(t.battery_level, "100%");
    assert_eq!(t.time, "");
    assert_eq!(t.date, "");
    assert!(t.workspaces.is_empty());
}

#[test]
fn update_keeps_only_the_newest_values() {
    let mut t = MyTaskbar::new();
    let older = vec![Workspace { name: "x".to_string(), focused: false, visible: false }];
    let newer = vec![Workspace { name: "y".to_string(), focused: true, visible: true }];
    let (repaint, wake) = t.update(
        vec![older, newer.clone()],
        vec!["90%".to_string(), "89%".to_string()],
        &clock(125, 9, 30, 10, 7, 2026),
    );
    assert!(repaint);
    assert_eq!(wake, 55);
    assert_eq!(t.workspaces, newer);
    assert_eq!(t.battery_level, "89%");
    assert_eq!(t.time, "09:30");
    assert_eq!(t.date, "10/07/2026");
}

#[test]
fn update_without_input_or_clock_change_requests_no_repaint() {
    let mut t = MyTaskbar::new();
    let c = clock(30, 12, 0, 1, 1, 2026);
    let (first, _) = t.update(vec![], vec![], &c);
    assert!(first); // the clock strings moved off their initial emptiness
    let (second, wake) = t.update(vec![], vec![], &c);
    assert!(!second);
    assert_eq!(wake, 30);
}

#[test]
fn update_repaints_when_a_clock_string_moves() {
    let mut t = MyTaskbar::new();
    t.update(vec![], vec![], &clock(0, 12, 0, 1, 1, 2026));
    let (repaint, _) = t.update(vec![], vec![], &clock(60, 12, 1, 1, 1, 2026));
    assert!(repaint);
}

#[test]
fn update_keeps_old_values_when_nothing_arrives() {
    let mut t = MyTaskbar::new();
    let ws = vec![Workspace { name: "a".to_string(), focused: true, visible: false }];
    t.update(vec![ws.clone()], vec!["42%".to_string()], &clock(0, 1, 2, 3, 4, 2026));
    t.update(vec![], vec![], &clock(5, 1, 2, 3, 4, 2026));
    assert_eq!(t.workspaces, ws);
    assert_eq!(t.battery_level, "42%");
}

#[test]
fn end_to_end_replacement_not_merge() {
    // Two workspace messages arrive over the wire; the second fully
    // replaces the first in the aggregator.
    let first = r#"{"messageType":"query_response","data":{"workspaces":[{"name":"1","hasFocus":true}]}}"#;
    let second = r#"{"messageType":"query_response","data":{"workspaces":[{"name":"1","hasFocus":false},{"name":"2","hasFocus":true,"isDisplayed":true}]}}"#;
    let mut published: Vec<Vec<Workspace>> = Vec::new();
    let mut state = ClientState::Streaming;
    for text in [first, second] {
        let (next, actions) = handle_text(state, text);
        state = next;
        for a in actions {
            if let ClientAction::Publish(ws) = a {
                published.push(ws);
            }
        }
    }
    assert_eq!(published.len(), 2);
    let mut t = MyTaskbar::new();
    let (repaint, _) = t.update(published, vec![], &clock(0, 0, 0, 1, 1, 2026));
    assert!(repaint);
    assert_eq!(
        t.workspaces,
        vec![
            Workspace { name: "1".to_string(), focused: false, visible: false },
            Workspace { name: "2".to_string(), focused: true, visible: true },
        ]
    );
}

#[test]
fn coalescer_take_clears_and_coalesces() {
    let mut c = Coalescer::new();
    assert!(!c.take()); // nothing raised yet
    c.raise();
    c.raise(); // a second raise coalesces with the first
    assert!(c.take()); // the cycle observes the flag once
    assert!(!c.take()); // and leaves it clear: no duplicate wake-up
}

#[test]
fn read_clock_is_well_formed() {
    let c = read_clock();
    assert!(c.hour < 24);
    assert!(c.minute < 60);
    assert!((1..=12).contains(&c.month));
    assert!((1..=31).contains(&c.day));
}
