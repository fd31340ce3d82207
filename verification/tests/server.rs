use multi_client::server::{auth_events, credentials_accepted, plugin_tick_events, App, MyComponent};

#[test]
fn only_charlie_with_his_code_is_let_in() {
    assert!(credentials_accepted(&"charlie".to_string(), &"12345".to_string()));
    assert!(!credentials_accepted(&"charlie".to_string(), &"1234".to_string()));
    assert!(!credentials_accepted(&"Charlie".to_string(), &"12345".to_string()));
    assert!(!credentials_accepted(&"".to_string(), &"".to_string()));
}

#[test]
fn logins_are_judged_in_order() {
    let auths = vec![
        ("charlie".to_string(), "12345".to_string()),
        ("eve".to_string(), "12345".to_string()),
    ];
    assert_eq!(auth_events(&auths), vec![true, false]);
}

#[test]
fn each_user_gets_the_tick_message() {
    let mut app = App::new();
    let sent = app.tick_event("B", 2);
    assert_eq!(sent, vec!["Server B Message (0)".to_string(), "Server B Message (0)".to_string()]);
    assert_eq!(app.tick_count, 1);
    let sent = app.tick_event("B", 0);
    assert!(sent.is_empty());
    assert_eq!(app.tick_count, 2);
}

#[test]
fn tick_counter_wraps() {
    let mut app = App { tick_count: u32::MAX };
    let sent = app.tick_event("C", 1);
    assert_eq!(sent, vec!["Server C Message (4294967295)".to_string()]);
    assert_eq!(app.tick_count, 0);
}

#[test]
fn plugin_server_sends_only_when_ticked() {
    let mut tick: u32 = 3;
    assert!(plugin_tick_events(&mut tick, false, "B", 2).is_empty());
    assert_eq!(tick, 3);
    let sent = plugin_tick_events(&mut tick, true, "B", 1);
    assert_eq!(sent, vec!["Server B Message(3)".to_string()]);
    assert_eq!(tick, 4);
}

#[test]
fn component_cycles_and_is_seen_between_3_and_7() {
    let mut c = MyComponent::new(0);
    let mut seen = vec![];
    let mut xs = vec![];
    for _ in 0..11 {
        seen.push(c.scope_step());
        xs.push(c.x);
    }
    assert_eq!(xs, vec![1, 2, 3, 4, 5, 6, 7, 8, 9, 10, 0]);
    assert_eq!(seen, vec![false, false, false, true, true, true, false, false, false, false, false]);
}

#[test]
fn component_out_of_range_falls_back_to_zero() {
    let mut c = MyComponent::new(42);
    assert!(!c.scope_step());
    assert_eq!(c.x, 0);
    let mut c = MyComponent::new(-5);
    assert!(!c.scope_step());
    assert_eq!(c.x, -4);
}
