//! Client-side prediction of the entity-relations client: recording the
//! queued command on each tick, and rolling back to the server's position.

use vstd::prelude::*;

use crate::history::{
    chained, history_can_insert, history_insert, history_replays, may_follow, unacknowledged,
    KeyCommand,
};
use crate::lines::{relink_all, relink_lines, LineRecord};
use crate::relations::Global;
use crate::sequence::{seq_greater, sequence_greater_than};

verus! {

/// The entries after recording `command` on each of `ticks` in turn, each
/// tick only where it may follow what is recorded so far.
pub open spec fn record_ticks(entries: Seq<(u16, KeyCommand)>, ticks: Seq<u16>, command: KeyCommand) -> Seq<(u16, KeyCommand)>
    decreases ticks.len(),
{
    if ticks.len() == 0 {
        entries
    } else {
        let before = record_ticks(entries, ticks.drop_last(), command);
        if may_follow(before, ticks.last()) {
            before.push((ticks.last(), command))
        } else {
            before
        }
    }
}

/// Recording only appends: what was held stays in front.
pub proof fn lemma_record_extends(entries: Seq<(u16, KeyCommand)>, ticks: Seq<u16>, command: KeyCommand)
    ensures
        record_ticks(entries, ticks, command).len() >= entries.len(),
        record_ticks(entries, ticks, command).take(entries.len() as int) == entries,
    decreases ticks.len(),
{
    if ticks.len() > 0 {
        lemma_record_extends(entries, ticks.drop_last(), command);
        let before = record_ticks(entries, ticks.drop_last(), command);
        if may_follow(before, ticks.last()) {
            assert(before.push((ticks.last(), command)).take(entries.len() as int) =~= before.take(entries.len() as int));
        }
    }
}

/// Recording keeps the history in tick order.
pub proof fn lemma_record_chained(entries: Seq<(u16, KeyCommand)>, ticks: Seq<u16>, command: KeyCommand)
    requires
        chained(entries),
    ensures
        chained(record_ticks(entries, ticks, command)),
    decreases ticks.len(),
{
    if ticks.len() > 0 {
        lemma_record_chained(entries, ticks.drop_last(), command);
        let before = record_ticks(entries, ticks.drop_last(), command);
        if may_follow(before, ticks.last()) {
            let after = before.push((ticks.last(), command));
            assert forall|i: int| 0 < i < after.len() implies #[trigger] seq_greater(after[i].0, after[i - 1].0) by {
                if i < before.len() {
                    assert(after[i] == before[i] && after[i - 1] == before[i - 1]);
                }
            }
        }
    }
}

/// What is left after dropping acknowledged commands is a suffix of the
/// history.
pub proof fn lemma_unacknowledged_suffix(entries: Seq<(u16, KeyCommand)>, start: u16)
    ensures
        unacknowledged(entries, start).len() <= entries.len(),
        unacknowledged(entries, start) == entries.skip(entries.len() - unacknowledged(entries, start).len()),
    decreases entries.len(),
{
    if entries.len() > 0 && !seq_greater(entries[0].0, start) {
        lemma_unacknowledged_suffix(entries.drop_first(), start);
        let rest = unacknowledged(entries.drop_first(), start);
        assert(entries.drop_first().skip(entries.drop_first().len() - rest.len()) =~= entries.skip(entries.len() - rest.len()));
    } else {
        assert(entries.skip(0) =~= entries);
    }
}

/// Dropping acknowledged commands keeps the history in tick order.
pub proof fn lemma_unacknowledged_chained(entries: Seq<(u16, KeyCommand)>, start: u16)
    requires
        chained(entries),
    ensures
        chained(unacknowledged(entries, start)),
{
    lemma_unacknowledged_suffix(entries, start);
    let rest = unacknowledged(entries, start);
    let k = entries.len() - rest.len();
    assert forall|i: int| 0 < i < rest.len() implies #[trigger] seq_greater(rest[i].0, rest[i - 1].0) by {
        assert(rest[i] == entries[k + i] && rest[i - 1] == entries[k + i - 1]);
        assert(seq_greater(entries[k + i].0, entries[k + i - 1].0));
    }
}

/// The most recent tick, among `updates`, at which the server updated
/// `entity`'s position; a later tick wins by wrapping comparison, in the
/// order the updates came.
pub open spec fn latest_tick(updates: Seq<(u16, u64)>, entity: u64) -> Option<u16>
    decreases updates.len(),
{
    if updates.len() == 0 {
        None
    } else {
        let before = latest_tick(updates.drop_last(), entity);
        let tick = updates.last().0;
        if updates.last().1 != entity {
            before
        } else {
            match before {
                None => Some(tick),
                Some(last) => if seq_greater(tick, last) {
                    Some(tick)
                } else {
                    Some(last)
                },
            }
        }
    }
}

/// The tick before `tick`, wrapping below zero.
pub open spec fn tick_before(tick: u16) -> u16 {
    if tick == 0 {
        0xffff
    } else {
        (tick - 1) as u16
    }
}

/// The most recent tick at which the server updated `entity`'s position.
pub fn latest_owned_tick(updates: &Vec<(u16, u64)>, entity: u64) -> (r: Option<u16>)
    ensures
        r == latest_tick(updates@, entity),
{
    let mut latest: Option<u16> = None;
    let mut k: usize = 0;
    while k < updates.len()
        invariant
            k <= updates.len(),
            latest == latest_tick(updates@.take(k as int), entity),
        decreases updates.len() - k,
    {
        proof { assert(updates@.take(k + 1).drop_last() =~= updates@.take(k as int)); }
        let (tick, updated) = updates[k];
        if updated == entity {
            match latest {
                Some(last) => {
                    if sequence_greater_than(tick, last) {
                        latest = Some(tick);
                    }
                },
                None => {
                    latest = Some(tick);
                },
            }
        }
        k = k + 1;
    }
    assert(updates@.take(updates.len() as int) =~= updates@);
    latest
}

impl Global {
    /// On each client tick, while the client owns an entity and has a queued
    /// command: the queued command is taken, and recorded on each tick where
    /// it may follow the history. Returns the (tick, command) pairs recorded,
    /// in order, which the caller sends and applies to the predicted entity.
    pub fn tick_events(&mut self, client_ticks: &Vec<u16>) -> (sent: Vec<(u16, KeyCommand)>)
        requires
            old(self).wf(),
        ensures
            final(self).wf(),
            match (old(self).owned_entity, old(self).queued_command) {
                (Some(_), Some(command)) => {
                    &&& final(self).entries() == record_ticks(old(self).entries(), client_ticks@, command)
                    &&& sent@ == final(self).entries().skip(old(self).entries().len() as int)
                    &&& final(self).queued_command is None
                    &&& final(self).owned_entity == old(self).owned_entity
                    &&& final(self).cursor_entity == old(self).cursor_entity
                },
                _ => sent@.len() == 0 && *final(self) == *old(self),
            },
    {
        let mut sent: Vec<(u16, KeyCommand)> = Vec::new();
        if self.owned_entity.is_none() {
            return sent;
        }
        let command = match self.queued_command {
            Some(c) => c,
            None => {
                return sent;
            },
        };
        self.queued_command = None;
        let ghost start = self.entries();
        let mut k: usize = 0;
        proof {
            assert(client_ticks@.take(0) =~= Seq::<u16>::empty());
            assert(start.skip(start.len() as int) =~= Seq::<(u16, KeyCommand)>::empty());
        }
        while k < client_ticks.len()
            invariant
                k <= client_ticks.len(),
                chained(start),
                self.entries() == record_ticks(start, client_ticks@.take(k as int), command),
                sent@ == self.entries().skip(start.len() as int),
                self.queued_command is None,
                self.owned_entity == old(self).owned_entity,
                self.cursor_entity == old(self).cursor_entity,
            decreases client_ticks.len() - k,
        {
            let tick = client_ticks[k];
            proof {
                assert(client_ticks@.take(k + 1).drop_last() =~= client_ticks@.take(k as int));
                lemma_record_extends(start, client_ticks@.take(k as int), command);
            }
            if history_can_insert(&self.command_history, tick) {
                let ghost before = self.entries();
                history_insert(&mut self.command_history, tick, command);
                sent.push((tick, command));
                assert(self.entries().skip(start.len() as int) =~= before.skip(start.len() as int).push((tick, command)));
            }
            k = k + 1;
        }
        proof {
            assert(client_ticks@.take(client_ticks.len() as int) =~= client_ticks@);
            lemma_record_chained(start, client_ticks@, command);
        }
        sent
    }

    /// The server updated positions (`position_updates`, as (tick, entity))
    /// and relations (`relation_updates`, as (square, entity it now points
    /// at)). Nothing is done unless the client owns an entity. Then each
    /// relation update repoints the first line from its square; and where the
    /// owned entity's position was updated and both its copies have a
    /// position (`positions_found`), the history drops what the server has
    /// seen, up to the tick before the latest update, and the commands left
    /// are returned for the caller to replay on the predicted copy after
    /// mirroring the server's position.
    pub fn update_component_events(
        &mut self,
        position_updates: &Vec<(u16, u64)>,
        relation_updates: &Vec<(u64, Option<u64>)>,
        lines: &mut Vec<LineRecord>,
        positions_found: bool,
    ) -> (replay: Vec<(u16, KeyCommand)>)
        requires
            old(self).wf(),
        ensures
            final(self).wf(),
            final(self).owned_entity == old(self).owned_entity,
            final(self).cursor_entity == old(self).cursor_entity,
            final(self).queued_command == old(self).queued_command,
            match old(self).owned_entity {
                None => {
                    &&& final(lines)@ == old(lines)@
                    &&& final(self).entries() == old(self).entries()
                    &&& replay@.len() == 0
                },
                Some(owned) => {
                    &&& final(lines)@ == relink_all(old(lines)@, relation_updates@)
                    &&& match latest_tick(position_updates@, owned.confirmed) {
                        Some(tick) if positions_found => {
                            &&& final(self).entries() == unacknowledged(old(self).entries(), tick_before(tick))
                            &&& replay@ == final(self).entries()
                        },
                        _ => final(self).entries() == old(self).entries() && replay@.len() == 0,
                    }
                },
            },
    {
        let owned = match self.owned_entity {
            Some(o) => o,
            None => {
                return Vec::new();
            },
        };
        let latest = latest_owned_tick(position_updates, owned.confirmed);
        relink_lines(lines, relation_updates);
        match latest {
            Some(tick) => {
                if positions_found {
                    let start: u16 = if tick == 0 {
                        0xffff
                    } else {
                        tick - 1
                    };
                    proof { lemma_unacknowledged_chained(self.entries(), start); }
                    history_replays(&mut self.command_history, start)
                } else {
                    Vec::new()
                }
            },
            None => Vec::new(),
        }
    }
}

/// A client tick is recorded exactly when the history is empty or the tick
/// comes after the history's most recent tick, whatever the history held
/// before: then the queued command is appended at that tick, otherwise the
/// history is left as it is.
pub proof fn lemma_tick_recorded_when_later(
    entries: Seq<(u16, KeyCommand)>,
    ticks: Seq<u16>,
    tick: u16,
    command: KeyCommand,
)
    ensures
        ({
            let before = record_ticks(entries, ticks, command);
            let after = record_ticks(entries, ticks.push(tick), command);
            &&& (before.len() == 0 || seq_greater(tick, before[before.len() - 1].0)) ==> after == before.push((tick, command))
            &&& !(before.len() == 0 || seq_greater(tick, before[before.len() - 1].0)) ==> after == before
        }),
        entries.len() > 0 && seq_greater(tick, entries[entries.len() - 1].0) ==>
            record_ticks(entries, seq![tick], command) == entries.push((tick, command)),
        entries.len() == 0 ==> record_ticks(entries, seq![tick], command) == seq![(tick, command)],
        record_ticks(entries, Seq::<u16>::empty(), command) == entries,
{
    assert(ticks.push(tick).drop_last() =~= ticks);
    let one = seq![tick];
    assert(one.drop_last() =~= Seq::<u16>::empty());
    assert(one.last() == tick);
    assert(record_ticks(entries, Seq::<u16>::empty(), command) == entries);
    assert(record_ticks(entries, one, command) == (if may_follow(entries, tick) {
        entries.push((tick, command))
    } else {
        entries
    }));
    if entries.len() == 0 {
        assert(entries.push((tick, command)) =~= seq![(tick, command)]);
    }
}

} // verus!
