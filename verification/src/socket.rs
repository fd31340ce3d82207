//! The socket-level ping client: it sends its ping while its timer rings, and
//! counts the pongs that come back until it has three.

use vstd::prelude::*;

verus! {

/// How many pongs a client waits for before it is finished.
pub const PONGS_WANTED: u8 = 3;

/// What the socket handed the client this frame.
pub enum Received {
    /// A packet, decoded as text.
    Packet(String),
    /// Nothing arrived.
    Nothing,
    /// The socket reported an error.
    Failed,
}

/// What the client asks of the caller after a frame.
pub struct PingStep {
    /// The client is finished and may be closed.
    pub done: bool,
    /// Text to send to the server; the caller restarts the timer when it sends.
    pub send: Option<String>,
}

/// A ping client's state, apart from its socket and timer.
pub struct Client {
    pub letter: String,
    pub ping_msg: String,
    pub pong_msg: String,
    pub message_count: u8,
    pub server_addr_str: Option<String>,
}

/// A pong that arrives can still be counted: only a pong raises the count,
/// and it must stay below 255.
pub open spec fn counts_pong(c: Client, received: Received) -> bool {
    received matches Received::Packet(t) && t@ == c.pong_msg@ ==> c.message_count < u8::MAX
}

/// The frame given to a client slot can be taken.
pub open spec fn slot_fits(slot: Option<Client>, frame: Option<Frame>) -> bool {
    match (slot, frame) {
        (Some(c), Some(f)) => counts_pong(c, f.received),
        _ => true,
    }
}

/// The client's pong count after it received `received`.
pub open spec fn pong_count(c: Client, received: Received) -> int {
    match received {
        Received::Packet(text) => if text@ == c.pong_msg@ {
            c.message_count + 1
        } else {
            c.message_count as int
        },
        _ => c.message_count as int,
    }
}

/// Whether the client is finished after it received `received`: the pong
/// that makes three, or nothing arriving once it has three or more.
pub open spec fn finishes(c: Client, received: Received) -> bool {
    match received {
        Received::Packet(text) => text@ == c.pong_msg@ && c.message_count + 1 == PONGS_WANTED,
        Received::Nothing => c.message_count >= PONGS_WANTED,
        Received::Failed => false,
    }
}

/// What the client sends after it received `received`: its ping, when
/// nothing arrived, it still waits for pongs, and its timer rings.
pub open spec fn outgoing(c: Client, received: Received, timer_ringing: bool) -> Option<String> {
    match received {
        Received::Nothing => if c.message_count < PONGS_WANTED && timer_ringing {
            Some(c.ping_msg)
        } else {
            None
        },
        _ => None,
    }
}

/// The client after a frame.
pub open spec fn stepped(c: Client, server_addr: Option<String>, received: Received) -> Client {
    Client {
        message_count: pong_count(c, received) as u8,
        server_addr_str: match c.server_addr_str {
            Some(a) => Some(a),
            None => server_addr,
        },
        ..c
    }
}

impl Client {
    /// A client for the server named `letter`, that sends `ping_msg` and waits
    /// for `pong_msg`.
    pub fn new(letter: String, ping_msg: String, pong_msg: String) -> (c: Self)
        ensures
            c.letter == letter,
            c.ping_msg == ping_msg,
            c.pong_msg == pong_msg,
            c.message_count == 0,
            c.server_addr_str is None,
    {
        Client { letter, ping_msg, pong_msg, message_count: 0, server_addr_str: None }
    }

    /// One frame. `server_addr` is the server's address where the socket has
    /// found it, `received` what the socket gave, and `timer_ringing` whether
    /// the send timer rings.
    pub fn update(&mut self, server_addr: Option<String>, received: Received, timer_ringing: bool) -> (step: PingStep)
        requires
            counts_pong(*old(self), received),
        ensures
            *final(self) == stepped(*old(self), server_addr, received),
            step.done == finishes(*old(self), received),
            step.send == outgoing(*old(self), received, timer_ringing),
    {
        if self.server_addr_str.is_none() {
            self.server_addr_str = server_addr;
        }
        match received {
            Received::Packet(text) => {
                if text == self.pong_msg {
                    self.message_count = self.message_count + 1;
                    if self.message_count == PONGS_WANTED {
                        return PingStep { done: true, send: None };
                    }
                }
                PingStep { done: false, send: None }
            },
            Received::Nothing => {
                if self.message_count < PONGS_WANTED {
                    if timer_ringing {
                        PingStep { done: false, send: Some(self.ping_msg.clone()) }
                    } else {
                        PingStep { done: false, send: None }
                    }
                } else {
                    PingStep { done: true, send: None }
                }
            },
            Received::Failed => PingStep { done: false, send: None },
        }
    }
}

/// What the socket handed one client in a frame.
pub struct Frame {
    pub server_addr: Option<String>,
    pub received: Received,
    pub timer_ringing: bool,
}

/// The two ping clients of the demo; each is closed once it is finished.
pub struct App {
    pub client_a: Option<Client>,
    pub client_b: Option<Client>,
}

/// A client slot after a frame: the client moves on, or is closed once
/// finished.
pub open spec fn slot_after(slot: Option<Client>, frame: Option<Frame>) -> Option<Client> {
    match (slot, frame) {
        (Some(c), Some(f)) => if finishes(c, f.received) {
            None
        } else {
            Some(stepped(c, f.server_addr, f.received))
        },
        _ => slot,
    }
}

/// What a client slot sends after a frame.
pub open spec fn slot_sends(slot: Option<Client>, frame: Option<Frame>) -> Option<String> {
    match (slot, frame) {
        (Some(c), Some(f)) => outgoing(c, f.received, f.timer_ringing),
        _ => None,
    }
}

fn update_slot(slot: &mut Option<Client>, frame: Option<Frame>) -> (send: Option<String>)
    requires
        slot_fits(*old(slot), frame),
    ensures
        *final(slot) == slot_after(*old(slot), frame),
        send == slot_sends(*old(slot), frame),
{
    match frame {
        Some(f) => {
            let taken = slot.take();
            match taken {
                Some(mut c) => {
                    let step = c.update(f.server_addr, f.received, f.timer_ringing);
                    if !step.done {
                        *slot = Some(c);
                    }
                    step.send
                },
                None => None,
            }
        },
        None => None,
    }
}

impl App {
    /// One frame: each open client takes its frame (`frame_a`, `frame_b`),
    /// and is closed once finished. Returns what each sends.
    pub fn update(&mut self, frame_a: Option<Frame>, frame_b: Option<Frame>) -> (sends: (Option<String>, Option<String>))
        requires
            slot_fits(old(self).client_a, frame_a),
            slot_fits(old(self).client_b, frame_b),
        ensures
            final(self).client_a == slot_after(old(self).client_a, frame_a),
            final(self).client_b == slot_after(old(self).client_b, frame_b),
            sends.0 == slot_sends(old(self).client_a, frame_a),
            sends.1 == slot_sends(old(self).client_b, frame_b),
    {
        let send_a = update_slot(&mut self.client_a, frame_a);
        let send_b = update_slot(&mut self.client_b, frame_b);
        (send_a, send_b)
    }
}

/// A frame never lowers a client's pong count, and raises it by at most one;
/// a client that has fewer than three pongs is never finished by a frame in
/// which no pong comes.
pub proof fn lemma_pongs_count_up(c: Client, received: Received)
    ensures
        c.message_count <= pong_count(c, received) <= c.message_count + 1,
        c.message_count < PONGS_WANTED && pong_count(c, received) == c.message_count ==> !finishes(c, received),
{
}

/// What a client sends and whether it finishes, over every state: with
/// nothing received, a client with fewer than three pongs sends its ping
/// whenever the timer rings and is not finished, and one with three or more
/// sends nothing and is finished; a packet or an error never makes it send;
/// a silent timer never makes it send. A pong raises the count by one and
/// finishes the client when it is the third; any other packet changes nothing.
pub proof fn lemma_ping_rules(c: Client, received: Received, timer_ringing: bool)
    ensures
        c.message_count < 3 && timer_ringing ==> outgoing(c, Received::Nothing, timer_ringing) == Some(c.ping_msg),
        c.message_count < 3 ==> !finishes(c, Received::Nothing),
        c.message_count >= 3 ==> outgoing(c, Received::Nothing, timer_ringing) is None
            && finishes(c, Received::Nothing),
        !timer_ringing ==> outgoing(c, received, timer_ringing) is None,
        !(received is Nothing) ==> outgoing(c, received, timer_ringing) is None,
        received is Failed ==> !finishes(c, received) && pong_count(c, received) == c.message_count,
        received is Nothing ==> pong_count(c, received) == c.message_count,
        received matches Received::Packet(text) && text@ == c.pong_msg@ ==>
            pong_count(c, received) == c.message_count + 1 && (finishes(c, received) <==> c.message_count == 2),
        received matches Received::Packet(text) && text@ != c.pong_msg@ ==>
            pong_count(c, received) == c.message_count && !finishes(c, received),
{
}

} // verus!
