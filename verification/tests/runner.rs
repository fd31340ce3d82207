use multi_client::names::{
    message_events, Alt, ClientName, Global, IsStringMessage, Main, MessageKind, MessagesPlugin,
    StringMessage,
};
use multi_client::runner::{App, ClientRunner, RunnerFrame, RunnerSwitch};
use multi_client::text::{named_reply_text, plugin_server_tick_text, runner_reply_text, server_tick_text};

#[test]
fn reply_texts_render_counters_in_decimal() {
    assert_eq!(runner_reply_text("B", 0), "Client B Message (0)");
    assert_eq!(runner_reply_text("C", 12), "Client C Message (12)");
    assert_eq!(runner_reply_text("B", u32::MAX), "Client B Message (4294967295)");
    assert_eq!(named_reply_text("Main", 3), "Client<Main> Message (3)");
    assert_eq!(server_tick_text("B", 7), "Server B Message (7)");
    assert_eq!(plugin_server_tick_text("C", 10), "Server C Message(10)");
}

#[test]
fn new_runner_has_sent_nothing() {
    let r = ClientRunner::new("A".to_string());
    assert_eq!(r.letter(), "A");
    assert_eq!(r.message_count(), 0);
    assert_eq!(r.disconnect_count(), 0);
}

#[test]
fn runner_answers_each_message_in_turn() {
    let mut r = ClientRunner::new("B".to_string());
    let replies = r.update(false, 2);
    assert_eq!(replies, vec!["Client B Message (0)".to_string(), "Client B Message (1)".to_string()]);
    assert_eq!(r.message_count(), 2);
    let more = r.update(false, 1);
    assert_eq!(more, vec!["Client B Message (2)".to_string()]);
    assert_eq!(r.message_count(), 3);
}

#[test]
fn disconnected_runner_does_nothing() {
    let mut r = ClientRunner::new("B".to_string());
    let replies = r.update(true, 5);
    assert!(replies.is_empty());
    assert_eq!(r.message_count(), 0);
}

#[test]
fn disconnections_are_counted() {
    let mut r = ClientRunner::new("B".to_string());
    r.increment_disconnect_count();
    r.increment_disconnect_count();
    assert_eq!(r.disconnect_count(), 2);
}

#[test]
fn moving_to_a_server_resets_the_runner() {
    let mut r = ClientRunner::new("B".to_string());
    r.update(false, 4);
    r.increment_disconnect_count();
    let t = r.connect_to_server_c();
    assert_eq!(r.letter(), "C");
    assert_eq!(r.message_count(), 0);
    assert_eq!(r.disconnect_count(), 0);
    assert_eq!(t.url, "http://127.0.0.1:14195");
    assert_eq!(t.username, "charlie");
    assert_eq!(t.password, "12345");
    let t = r.connect_to_server_b();
    assert_eq!(r.letter(), "B");
    assert_eq!(t.url, "http://127.0.0.1:14193");
}

#[test]
fn switch_waits_for_four_messages() {
    let mut r = ClientRunner::new("B".to_string());
    r.update(false, 3);
    assert_eq!(r.switch_step(true, false), RunnerSwitch::Keep);
    r.update(false, 1);
    assert_eq!(r.switch_step(true, false), RunnerSwitch::Disconnect);
    assert_eq!(r.switch_step(false, false), RunnerSwitch::AwaitDisconnect);
    assert_eq!(r.switch_step(false, true), RunnerSwitch::ConnectC);
    r.connect_to_server_c();
    r.update(false, 4);
    assert_eq!(r.switch_step(false, true), RunnerSwitch::ConnectB);
}

#[test]
fn second_runner_alternates_between_b_and_c() {
    let mut b = ClientRunner::new("B".to_string());
    b.connect_to_server_b();
    let mut app = App { client_runner_a: ClientRunner::new("A".to_string()), client_runner_b: b };
    let step = app.update(
        RunnerFrame { disconnected: false, received: 1 },
        RunnerFrame { disconnected: false, received: 4 },
        true,
        false,
    );
    assert_eq!(step.replies_a, vec!["Client A Message (0)".to_string()]);
    assert_eq!(step.replies_b.len(), 4);
    assert_eq!(step.replies_b[3], "Client B Message (3)");
    assert_eq!(step.switch, RunnerSwitch::Disconnect);
    assert!(step.target.is_none());
    let step = app.update(
        RunnerFrame { disconnected: false, received: 0 },
        RunnerFrame { disconnected: true, received: 0 },
        false,
        true,
    );
    assert_eq!(step.switch, RunnerSwitch::ConnectC);
    assert_eq!(step.target.unwrap().url, "http://127.0.0.1:14195");
    assert_eq!(app.client_runner_b.letter(), "C");
    assert_eq!(app.client_runner_b.message_count(), 0);
    let step = app.update(
        RunnerFrame { disconnected: false, received: 0 },
        RunnerFrame { disconnected: false, received: 4 },
        false,
        true,
    );
    assert_eq!(step.replies_b[0], "Client C Message (0)");
    assert_eq!(step.switch, RunnerSwitch::ConnectB);
    assert_eq!(step.target.unwrap().url, "http://127.0.0.1:14193");
    assert_eq!(app.client_runner_b.letter(), "B");
    assert_eq!(app.client_runner_a.message_count(), 1);
}

#[test]
fn client_names() {
    assert_eq!(Main::name(), "Main");
    assert_eq!(Alt::name(), "Alt");
}

#[test]
fn string_message_gives_back_its_contents() {
    let m = <StringMessage as IsStringMessage>::new("hello".to_string());
    assert_eq!(m.contents(), "hello");
}

#[test]
fn named_client_answers_and_counts() {
    let mut count: u32 = 5;
    let replies: Vec<StringMessage> = message_events::<Alt, StringMessage>(&mut count, 2);
    assert_eq!(count, 7);
    assert_eq!(replies.len(), 2);
    assert_eq!(replies[0].contents(), "Client<Alt> Message (5)");
    assert_eq!(replies[1].contents(), "Client<Alt> Message (6)");
}

#[test]
fn global_counters_start_at_zero() {
    let g = Global::default();
    assert_eq!((g.message_count_a, g.message_count_b, g.message_count_c), (0, 0, 0));
}

#[test]
fn plugin_registers_login_then_string_message() {
    let mut protocol: Vec<MessageKind> = vec![];
    MessagesPlugin.build(&mut protocol);
    assert_eq!(protocol, vec![MessageKind::Auth, MessageKind::StringMessage]);
}

#[test]
fn first_runner_is_never_switched() {
    let mut b = ClientRunner::new("B".to_string());
    b.connect_to_server_b();
    let mut a = ClientRunner::new("A".to_string());
    a.increment_disconnect_count();
    let mut app = App { client_runner_a: a, client_runner_b: b };
    for _ in 0..3 {
        let step = app.update(
            RunnerFrame { disconnected: false, received: 5 },
            RunnerFrame { disconnected: false, received: 5 },
            false,
            true,
        );
        assert!(step.target.is_some());
        assert_eq!(app.client_runner_a.letter(), "A");
        assert_eq!(app.client_runner_a.disconnect_count(), 1);
        let letter = app.client_runner_b.letter();
        assert!(letter == "B" || letter == "C");
    }
    assert_eq!(app.client_runner_a.message_count(), 15);
}
