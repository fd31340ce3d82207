//! The client's record of the commands it predicted, kept in
//! `naia_client::CommandHistory`.

use naia_client::CommandHistory;
use vstd::prelude::*;

use crate::sequence::seq_greater;

verus! {

/// A player's key command: which of the movement keys are held.
#[derive(Clone, Copy, Debug, PartialEq, Eq)]
pub struct KeyCommand {
    pub w: bool,
    pub s: bool,
    pub a: bool,
    pub d: bool,
}

#[verifier::external_type_specification]
#[verifier::external_body]
#[verifier::reject_recursive_types(T)]
pub struct ExCommandHistory<T: Clone>(CommandHistory<T>);

/// The (tick, command) pairs that a history holds, oldest first.
pub uninterp spec fn history_entries(history: CommandHistory<KeyCommand>) -> Seq<(u16, KeyCommand)>;

/// A command for `tick` may be appended after `entries`: the history is empty,
/// or `tick` comes after its most recent tick.
pub open spec fn may_follow(entries: Seq<(u16, KeyCommand)>, tick: u16) -> bool {
    entries.len() == 0 || seq_greater(tick, entries.last().0)
}

/// What is left of `entries` once every entry up to and including `start` has
/// been dropped from the front.
pub open spec fn unacknowledged(entries: Seq<(u16, KeyCommand)>, start: u16) -> Seq<(u16, KeyCommand)>
    decreases entries.len(),
{
    if entries.len() == 0 {
        entries
    } else if seq_greater(entries[0].0, start) {
        entries
    } else {
        unacknowledged(entries.drop_first(), start)
    }
}

/// Each entry comes after the one before it.
pub open spec fn chained(entries: Seq<(u16, KeyCommand)>) -> bool {
    forall|i: int| 0 < i < entries.len() ==> #[trigger] seq_greater(entries[i].0, entries[i - 1].0)
}

/// Calls `CommandHistory::default`; the contract claims the new history is empty.
#[verifier::external_body]
pub(crate) fn history_new() -> (h: CommandHistory<KeyCommand>)
    ensures
        history_entries(h) == Seq::<(u16, KeyCommand)>::empty(),
{
    CommandHistory::default()
}

/// Calls `CommandHistory::can_insert`; the contract claims it answers whether
/// `tick` may follow the entries held.
#[verifier::external_body]
pub(crate) fn history_can_insert(h: &CommandHistory<KeyCommand>, tick: u16) -> (r: bool)
    ensures
        r == may_follow(history_entries(*h), tick),
{
    h.can_insert(&tick)
}

/// Calls `CommandHistory::insert`, which panics unless `tick` may follow the
/// entries held; the contract claims the pair is appended at the back.
#[verifier::external_body]
pub(crate) fn history_insert(h: &mut CommandHistory<KeyCommand>, tick: u16, command: KeyCommand)
    requires
        may_follow(history_entries(*old(h)), tick),
    ensures
        history_entries(*final(h)) == history_entries(*old(h)).push((tick, command)),
{
    h.insert(tick, command)
}

/// Calls `CommandHistory::replays`; the contract claims it drops the entries
/// up to and including `start` from the front, and returns a copy of what is
/// left, in order.
#[verifier::external_body]
pub(crate) fn history_replays(h: &mut CommandHistory<KeyCommand>, start: u16) -> (r: Vec<(u16, KeyCommand)>)
    ensures
        history_entries(*final(h)) == unacknowledged(history_entries(*old(h)), start),
        r@ == history_entries(*final(h)),
{
    h.replays(&start)
}

} // verus!
