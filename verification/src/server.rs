//! The servers' decisions: whom they let in, what they send on each tick, and
//! which users see the shared component.

use vstd::prelude::*;

use crate::text::{plugin_server_text, plugin_server_tick_text, server_text, server_tick_text};

verus! {

/// The credentials the servers accept.
pub open spec fn accepted(username: Seq<char>, password: Seq<char>) -> bool {
    username == "charlie"@ && password == "12345"@
}

/// Whether a user who sent `username` and `password` is let in.
pub fn credentials_accepted(username: &String, password: &String) -> (r: bool)
    ensures
        r == accepted(username@, password@),
{
    let charlie = String::from_str("charlie");
    let code = String::from_str("12345");
    *username == charlie && *password == code
}

/// For each login of `auths`, as (username, password) in order, whether the
/// user is let in.
pub fn auth_events(auths: &Vec<(String, String)>) -> (verdicts: Vec<bool>)
    ensures
        verdicts@.len() == auths@.len(),
        forall|i: int| 0 <= i < auths@.len() ==> #[trigger] verdicts@[i] == accepted(auths@[i].0@, auths@[i].1@),
{
    let mut verdicts: Vec<bool> = Vec::new();
    let mut k: usize = 0;
    while k < auths.len()
        invariant
            k <= auths.len(),
            verdicts@.len() == k,
            forall|i: int| 0 <= i < k ==> #[trigger] verdicts@[i] == accepted(auths@[i].0@, auths@[i].1@),
        decreases auths.len() - k,
    {
        let ok = credentials_accepted(&auths[k].0, &auths[k].1);
        verdicts.push(ok);
        k = k + 1;
    }
    verdicts
}

/// `users` copies of `text`.
fn texts_for(text: String, users: usize) -> (r: Vec<String>)
    ensures
        r@.len() == users,
        forall|i: int| 0 <= i < users ==> #[trigger] r@[i]@ == text@,
{
    let mut r: Vec<String> = Vec::new();
    let mut k: usize = 0;
    while k < users
        invariant
            k <= users,
            r@.len() == k,
            forall|i: int| 0 <= i < k ==> #[trigger] r@[i]@ == text@,
        decreases users - k,
    {
        r.push(text.clone());
        k = k + 1;
    }
    r
}

/// The plain-API server: its tick counter, which wraps.
pub struct App {
    pub tick_count: u32,
}

impl App {
    /// A counter at zero.
    pub fn new() -> (c: Self)
        ensures
            c.tick_count == 0,
    {
        App { tick_count: 0 }
    }

    /// One tick of server `letter` with `users` connected: each user gets
    /// the tick's message, and the counter moves on, wrapping.
    pub fn tick_event(&mut self, letter: &str, users: usize) -> (messages: Vec<String>)
        ensures
            final(self).tick_count == (if old(self).tick_count == u32::MAX {
                0
            } else {
                old(self).tick_count + 1
            }),
            messages@.len() == users,
            forall|i: int| 0 <= i < users ==>
                #[trigger] messages@[i]@ == server_text(letter@, old(self).tick_count as nat),
    {
        let text = server_tick_text(letter, self.tick_count);
        let messages = texts_for(text, users);
        self.tick_count = if self.tick_count == u32::MAX {
            0
        } else {
            self.tick_count + 1
        };
        messages
    }
}

/// One frame of the plugin server `letter`'s tick system. Where a tick came
/// (`ticked`), each of the `users` gets the tick's message and the counter
/// moves on.
pub fn plugin_tick_events(tick_count: &mut u32, ticked: bool, letter: &str, users: usize) -> (messages: Vec<String>)
    requires
        ticked ==> *old(tick_count) < u32::MAX,
    ensures
        !ticked ==> *final(tick_count) == *old(tick_count) && messages@.len() == 0,
        ticked ==> {
            &&& *final(tick_count) == *old(tick_count) + 1
            &&& messages@.len() == users
            &&& forall|i: int| 0 <= i < users ==>
                #[trigger] messages@[i]@ == plugin_server_text(letter@, *old(tick_count) as nat)
        },
{
    if !ticked {
        return Vec::new();
    }
    let text = plugin_server_tick_text(letter, *tick_count);
    let messages = texts_for(text, users);
    *tick_count = *tick_count + 1;
    messages
}

/// The position that the server moves on each scope check.
pub open spec fn next_x(x: i16) -> i16 {
    if x + 1 > 10 {
        0
    } else {
        (x + 1) as i16
    }
}

/// A user sees the component while its position lies strictly between 3 and 7.
pub open spec fn in_scope(x: i16) -> bool {
    3 < x < 7
}

/// The component that the servers replicate to their users.
#[derive(Clone, Copy, Debug, PartialEq, Eq)]
pub struct MyComponent {
    pub x: i16,
}

impl MyComponent {
    /// A component at position `x`.
    pub fn new(x: i16) -> (c: Self)
        ensures
            c.x == x,
    {
        MyComponent { x }
    }

    /// One scope check: the position moves one step, back to 0 past 10.
    /// Returns whether the user is to see the component.
    pub fn scope_step(&mut self) -> (visible: bool)
        requires
            old(self).x < i16::MAX,
        ensures
            final(self).x == next_x(old(self).x),
            visible == in_scope(final(self).x),
    {
        self.x = self.x + 1;
        if self.x > 10 {
            self.x = 0;
        }
        3 < self.x && self.x < 7
    }
}

/// From a position in `0..=10`, a scope check keeps it there.
pub proof fn lemma_scope_stays_in_range(x: i16)
    requires
        0 <= x <= 10,
    ensures
        0 <= next_x(x) <= 10,
{
}

/// From position 0, eleven scope checks come back to 0, and the user sees
/// the component on the 4th, 5th and 6th of them.
pub proof fn lemma_scope_cycle()
    ensures
        next_x(next_x(next_x(next_x(next_x(next_x(next_x(next_x(next_x(next_x(next_x(0i16))))))))))) == 0,
        forall|x: i16| 0 <= x <= 10 ==> (in_scope(next_x(x)) <==> 3 <= x <= 5),
{
}

/// A login is let in exactly when the username is `charlie` and the password
/// is `12345`: any other password, even of the same length, or any other
/// username, is refused.
pub proof fn lemma_only_charlie_with_his_code(username: Seq<char>, password: Seq<char>)
    ensures
        accepted(username, password) <==> (username =~= "charlie"@ && password =~= "12345"@),
        password != "12345"@ ==> !accepted(username, password),
        username != "charlie"@ ==> !accepted(username, password),
        accepted("charlie"@, "12345"@),
{
}

} // verus!
