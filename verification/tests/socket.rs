use multi_client::socket::{App, Client, Frame, Received};

fn client() -> Client {
    Client::new("A".to_string(), "PING".to_string(), "PONG".to_string())
}

#[test]
fn ping_is_sent_when_the_timer_rings() {
    let mut c = client();
    let step = c.update(None, Received::Nothing, true);
    assert!(!step.done);
    assert_eq!(step.send, Some("PING".to_string()));
    let step = c.update(None, Received::Nothing, false);
    assert!(!step.done);
    assert_eq!(step.send, None);
}

#[test]
fn third_pong_finishes_the_client() {
    let mut c = client();
    assert!(!c.update(None, Received::Packet("PONG".to_string()), true).done);
    assert!(!c.update(None, Received::Packet("other".to_string()), true).done);
    assert_eq!(c.message_count, 1);
    assert!(!c.update(None, Received::Packet("PONG".to_string()), true).done);
    let step = c.update(None, Received::Packet("PONG".to_string()), true);
    assert!(step.done);
    assert_eq!(step.send, None);
    assert_eq!(c.message_count, 3);
    let step = c.update(None, Received::Nothing, true);
    assert!(step.done);
    assert_eq!(step.send, None);
}

#[test]
fn errors_change_nothing() {
    let mut c = client();
    let step = c.update(None, Received::Failed, true);
    assert!(!step.done);
    assert_eq!(step.send, None);
    assert_eq!(c.message_count, 0);
}

#[test]
fn server_address_is_kept_once_found() {
    let mut c = client();
    c.update(None, Received::Nothing, false);
    assert_eq!(c.server_addr_str, None);
    c.update(Some("127.0.0.1:14191".to_string()), Received::Nothing, false);
    c.update(Some("10.0.0.1:1".to_string()), Received::Nothing, false);
    assert_eq!(c.server_addr_str, Some("127.0.0.1:14191".to_string()));
}

#[test]
fn app_closes_a_finished_client() {
    let mut a = client();
    a.message_count = 2;
    let mut app = App { client_a: Some(a), client_b: Some(client()) };
    let sends = app.update(
        Some(Frame { server_addr: None, received: Received::Packet("PONG".to_string()), timer_ringing: false }),
        Some(Frame { server_addr: None, received: Received::Nothing, timer_ringing: true }),
    );
    assert!(app.client_a.is_none());
    assert!(app.client_b.is_some());
    assert_eq!(sends, (None, Some("PING".to_string())));
}

#[test]
fn full_counter_still_finishes_and_ignores_errors() {
    let mut c = client();
    c.message_count = 255;
    c.server_addr_str = Some("127.0.0.1:14193".to_string());
    let step = c.update(None, Received::Failed, true);
    assert!(!step.done);
    assert_eq!(step.send, None);
    assert_eq!(c.message_count, 255);
    let step = c.update(Some("10.0.0.1:1".to_string()), Received::Nothing, true);
    assert!(step.done);
    assert_eq!(step.send, None);
    assert_eq!(c.message_count, 255);
    assert_eq!(c.server_addr_str, Some("127.0.0.1:14193".to_string()));
}
