//! The multi-client runner: a client that answers each message it receives,
//! and that is switched between servers B and C once it has sent enough.

use vstd::prelude::*;

use crate::text::{runner_reply, runner_reply_text};

verus! {

/// Where and as whom a runner connects.
pub struct ServerTarget {
    pub url: String,
    pub username: String,
    pub password: String,
}

/// The runner's state, apart from its network client.
pub struct ClientRunner {
    letter: String,
    message_count: u32,
    disconnected_count: u32,
}

/// What a runner's state is: the server's letter and its two counters.
pub struct RunnerView {
    pub letter: Seq<char>,
    pub message_count: u32,
    pub disconnected_count: u32,
}

impl View for ClientRunner {
    type V = RunnerView;

    closed spec fn view(&self) -> RunnerView {
        RunnerView {
            letter: self.letter@,
            message_count: self.message_count,
            disconnected_count: self.disconnected_count,
        }
    }
}

/// What the demo does next with its second runner.
#[derive(Clone, Copy, Debug, PartialEq, Eq)]
pub enum RunnerSwitch {
    /// Fewer than four messages sent: nothing.
    Keep,
    /// Still connected: disconnect.
    Disconnect,
    /// Disconnected from B: connect to C.
    ConnectC,
    /// Disconnected from C: connect to B.
    ConnectB,
    /// Neither connected nor disconnected yet: wait.
    AwaitDisconnect,
}

/// The switch for a runner that sent `count` messages, by its connection
/// state and its server's letter.
pub open spec fn switch_for(count: u32, connected: bool, disconnected: bool, letter: Seq<char>) -> RunnerSwitch {
    if count <= 3 {
        RunnerSwitch::Keep
    } else if connected {
        RunnerSwitch::Disconnect
    } else if disconnected {
        if letter == "B"@ {
            RunnerSwitch::ConnectC
        } else {
            RunnerSwitch::ConnectB
        }
    } else {
        RunnerSwitch::AwaitDisconnect
    }
}

/// The url of server B's signalling endpoint.
pub open spec fn url_b() -> Seq<char> {
    "http://127.0.0.1:14193"@
}

/// The url of server C's signalling endpoint.
pub open spec fn url_c() -> Seq<char> {
    "http://127.0.0.1:14195"@
}

fn target(url: &str) -> (t: ServerTarget)
    ensures
        t.url@ == url@,
        t.username@ == "charlie"@,
        t.password@ == "12345"@,
{
    ServerTarget {
        url: String::from_str(url),
        username: String::from_str("charlie"),
        password: String::from_str("12345"),
    }
}

/// The runner's state after a frame with `received` messages, unless its
/// client was disconnected.
pub open spec fn runner_after(v: RunnerView, disconnected: bool, received: nat) -> RunnerView {
    if disconnected {
        v
    } else {
        RunnerView { message_count: (v.message_count + received) as u32, ..v }
    }
}

/// `replies` are the replies of a frame with `received` messages, from state `v`.
pub open spec fn frame_replies(replies: Seq<String>, v: RunnerView, disconnected: bool, received: nat) -> bool {
    if disconnected {
        replies.len() == 0
    } else {
        &&& replies.len() == received
        &&& forall|i: int| 0 <= i < received ==>
            #[trigger] replies[i]@ == runner_reply(v.letter, (v.message_count + i) as nat)
    }
}

impl ClientRunner {
    /// A runner for server `letter` that has sent nothing.
    pub fn new(letter: String) -> (r: Self)
        ensures
            r@ == (RunnerView { letter: letter@, message_count: 0, disconnected_count: 0 }),
    {
        ClientRunner { letter, message_count: 0, disconnected_count: 0 }
    }

    /// The server's letter.
    pub fn letter(&self) -> (l: String)
        ensures
            l@ == self@.letter,
    {
        self.letter.clone()
    }

    /// How many messages the runner sent.
    pub fn message_count(&self) -> (c: u32)
        ensures
            c == self@.message_count,
    {
        self.message_count
    }

    /// How many disconnections were counted.
    pub fn disconnect_count(&self) -> (c: u32)
        ensures
            c == self@.disconnected_count,
    {
        self.disconnected_count
    }

    /// Counts one more disconnection.
    pub fn increment_disconnect_count(&mut self)
        requires
            old(self)@.disconnected_count < u32::MAX,
        ensures
            final(self)@ == (RunnerView { disconnected_count: (old(self)@.disconnected_count + 1) as u32, ..old(self)@ }),
    {
        self.disconnected_count = self.disconnected_count + 1;
    }

    /// One frame of the runner: unless the client is disconnected, it answers
    /// each of the `received` messages in turn, numbering its replies from its
    /// message count on. Returns the replies to send.
    pub fn update(&mut self, disconnected: bool, received: usize) -> (replies: Vec<String>)
        requires
            !disconnected ==> old(self)@.message_count + received <= u32::MAX,
        ensures
            final(self)@ == runner_after(old(self)@, disconnected, received as nat),
            frame_replies(replies@, old(self)@, disconnected, received as nat),
    {
        let mut replies: Vec<String> = Vec::new();
        if disconnected {
            return replies;
        }
        let mut k: usize = 0;
        while k < received
            invariant
                k <= received,
                old(self)@.message_count + received <= u32::MAX,
                self.letter@ == old(self)@.letter,
                self.disconnected_count == old(self)@.disconnected_count,
                self.message_count == old(self)@.message_count + k,
                replies@.len() == k,
                forall|i: int| 0 <= i < k ==>
                    #[trigger] replies@[i]@ == runner_reply(old(self)@.letter, (old(self)@.message_count + i) as nat),
            decreases received - k,
        {
            let reply = runner_reply_text(self.letter.as_str(), self.message_count);
            replies.push(reply);
            self.message_count = self.message_count + 1;
            k = k + 1;
        }
        replies
    }

    /// Moves the runner to server B: letter `B`, counters reset. Returns
    /// where and as whom to connect.
    pub fn connect_to_server_b(&mut self) -> (t: ServerTarget)
        ensures
            final(self)@ == (RunnerView { letter: "B"@, message_count: 0, disconnected_count: 0 }),
            t.url@ == url_b(),
            t.username@ == "charlie"@,
            t.password@ == "12345"@,
    {
        self.letter = String::from_str("B");
        self.message_count = 0;
        self.disconnected_count = 0;
        target("http://127.0.0.1:14193")
    }

    /// Moves the runner to server C: letter `C`, counters reset. Returns
    /// where and as whom to connect.
    pub fn connect_to_server_c(&mut self) -> (t: ServerTarget)
        ensures
            final(self)@ == (RunnerView { letter: "C"@, message_count: 0, disconnected_count: 0 }),
            t.url@ == url_c(),
            t.username@ == "charlie"@,
            t.password@ == "12345"@,
    {
        self.letter = String::from_str("C");
        self.message_count = 0;
        self.disconnected_count = 0;
        target("http://127.0.0.1:14195")
    }

    /// What to do next with this runner, given whether its client is
    /// connected and whether it is disconnected. A runner that must be
    /// reconnected serves B or C.
    pub fn switch_step(&self, connected: bool, disconnected: bool) -> (s: RunnerSwitch)
        requires
            self@.message_count > 3 && !connected && disconnected ==> self@.letter == "B"@ || self@.letter == "C"@,
        ensures
            s == switch_for(self@.message_count, connected, disconnected, self@.letter),
    {
        if self.message_count <= 3 {
            RunnerSwitch::Keep
        } else if connected {
            RunnerSwitch::Disconnect
        } else if disconnected {
            let b = String::from_str("B");
            if self.letter == b {
                RunnerSwitch::ConnectC
            } else {
                RunnerSwitch::ConnectB
            }
        } else {
            RunnerSwitch::AwaitDisconnect
        }
    }
}

/// What a runner's client reported in a frame: whether it was disconnected
/// before receiving, and how many messages came.
pub struct RunnerFrame {
    pub disconnected: bool,
    pub received: usize,
}

/// What the demo does after a frame.
pub struct AppStep {
    /// Replies of the first runner, to send in order.
    pub replies_a: Vec<String>,
    /// Replies of the second runner, to send in order.
    pub replies_b: Vec<String>,
    /// What becomes of the second runner's connection.
    pub switch: RunnerSwitch,
    /// Where the second runner connects, when it is moved to another server.
    pub target: Option<ServerTarget>,
}

/// The multi-client demo: one runner stays with its server, the second is
/// moved between servers B and C once it has sent more than three messages.
pub struct App {
    pub client_runner_a: ClientRunner,
    pub client_runner_b: ClientRunner,
}

/// The second runner after the switch `s` from state `v`.
pub open spec fn switched(v: RunnerView, s: RunnerSwitch) -> RunnerView {
    match s {
        RunnerSwitch::ConnectC => RunnerView { letter: "C"@, message_count: 0, disconnected_count: 0 },
        RunnerSwitch::ConnectB => RunnerView { letter: "B"@, message_count: 0, disconnected_count: 0 },
        _ => v,
    }
}

impl App {
    /// One frame. Both runners answer what they received (`a`, `b`); then,
    /// by whether the second runner's client is now connected
    /// (`b_connected`) or disconnected (`b_disconnected`), the second runner
    /// is left alone, disconnected, or moved to the other server.
    pub fn update(&mut self, a: RunnerFrame, b: RunnerFrame, b_connected: bool, b_disconnected: bool) -> (step: AppStep)
        requires
            !a.disconnected ==> old(self).client_runner_a@.message_count + a.received <= u32::MAX,
            !b.disconnected ==> old(self).client_runner_b@.message_count + b.received <= u32::MAX,
            ({
                let mid = runner_after(old(self).client_runner_b@, b.disconnected, b.received as nat);
                mid.message_count > 3 && !b_connected && b_disconnected ==> mid.letter == "B"@ || mid.letter == "C"@
            }),
        ensures
            final(self).client_runner_a@ == runner_after(old(self).client_runner_a@, a.disconnected, a.received as nat),
            frame_replies(step.replies_a@, old(self).client_runner_a@, a.disconnected, a.received as nat),
            frame_replies(step.replies_b@, old(self).client_runner_b@, b.disconnected, b.received as nat),
            ({
                let mid = runner_after(old(self).client_runner_b@, b.disconnected, b.received as nat);
                &&& step.switch == switch_for(mid.message_count, b_connected, b_disconnected, mid.letter)
                &&& final(self).client_runner_b@ == switched(mid, step.switch)
                &&& match step.switch {
                    RunnerSwitch::ConnectC => step.target matches Some(t) && t.url@ == url_c()
                        && t.username@ == "charlie"@ && t.password@ == "12345"@,
                    RunnerSwitch::ConnectB => step.target matches Some(t) && t.url@ == url_b()
                        && t.username@ == "charlie"@ && t.password@ == "12345"@,
                    _ => step.target is None,
                }
            }),
    {
        let replies_a = self.client_runner_a.update(a.disconnected, a.received);
        let replies_b = self.client_runner_b.update(b.disconnected, b.received);
        let switch = self.client_runner_b.switch_step(b_connected, b_disconnected);
        let target = match switch {
            RunnerSwitch::ConnectC => Some(self.client_runner_b.connect_to_server_c()),
            RunnerSwitch::ConnectB => Some(self.client_runner_b.connect_to_server_b()),
            _ => None,
        };
        AppStep { replies_a, replies_b, switch, target }
    }
}

/// Once the second runner has sent more than three messages and its client
/// is disconnected, it goes from B to C and from C to B; a runner just moved
/// to a server has sent nothing and is left alone.
pub proof fn lemma_runner_alternates(count: u32)
    requires
        count > 3,
    ensures
        switch_for(count, false, true, "B"@) == RunnerSwitch::ConnectC,
        switch_for(count, false, true, "C"@) == RunnerSwitch::ConnectB,
        forall|connected: bool, disconnected: bool, letter: Seq<char>|
            #[trigger] switch_for(0, connected, disconnected, letter) == RunnerSwitch::Keep,
{
    reveal_strlit("B");
    reveal_strlit("C");
    assert("C"@[0] != "B"@[0]);
}

/// Across `App::update`, the second runner keeps serving B or C, so a
/// reconnection never meets an unknown letter; the first runner's letter and
/// disconnection count never change, and it is never switched.
pub proof fn lemma_app_keeps_letters(
    a: RunnerView,
    b: RunnerView,
    a_disconnected: bool,
    a_received: nat,
    b_disconnected: bool,
    b_received: nat,
    b_connected: bool,
    b_now_disconnected: bool,
)
    requires
        b.letter == "B"@ || b.letter == "C"@,
    ensures
        runner_after(a, a_disconnected, a_received).letter == a.letter,
        runner_after(a, a_disconnected, a_received).disconnected_count == a.disconnected_count,
        ({
            let mid = runner_after(b, b_disconnected, b_received);
            let after = switched(mid, switch_for(mid.message_count, b_connected, b_now_disconnected, mid.letter));
            &&& mid.letter == "B"@ || mid.letter == "C"@
            &&& after.letter == "B"@ || after.letter == "C"@
        }),
{
}

/// The second runner's next step, over all counts, states and letters: up to
/// three messages nothing happens; past three, a connected runner is
/// disconnected, a disconnected runner on B goes to C and one on C goes to B,
/// and a runner neither connected nor disconnected waits.
pub proof fn lemma_switch_rules(count: u32, connected: bool, disconnected: bool, letter: Seq<char>)
    ensures
        count <= 3 ==> switch_for(count, connected, disconnected, letter) == RunnerSwitch::Keep,
        count > 3 && connected ==> switch_for(count, connected, disconnected, letter) == RunnerSwitch::Disconnect,
        count > 3 && !connected && disconnected && letter == "B"@ ==>
            switch_for(count, connected, disconnected, letter) == RunnerSwitch::ConnectC,
        count > 3 && !connected && disconnected && letter == "C"@ ==>
            switch_for(count, connected, disconnected, letter) == RunnerSwitch::ConnectB,
        count > 3 && !connected && !disconnected ==>
            switch_for(count, connected, disconnected, letter) == RunnerSwitch::AwaitDisconnect,
{
    reveal_strlit("B");
    reveal_strlit("C");
    assert("C"@[0] != "B"@[0]);
}

} // verus!
