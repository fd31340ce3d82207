//! The lines the entity-relations client draws from each square to the entity
//! its relation points at.

use vstd::prelude::*;

verus! {

/// A line drawn from a square to the entity its relation points at.
#[derive(Clone, Copy, Debug, PartialEq, Eq)]
pub struct LineRecord {
    /// The line's own entity.
    pub line: u64,
    /// The square the line starts at.
    pub start: u64,
    /// The entity the line ends at, where the client knows it.
    pub end: Option<u64>,
}

/// The index of the first line from `from` on that starts at `start`.
pub open spec fn first_line_from(lines: Seq<LineRecord>, start: u64, from: int) -> Option<int>
    decreases lines.len() - from,
{
    if from < 0 || from >= lines.len() {
        None
    } else if lines[from].start == start {
        Some(from)
    } else {
        first_line_from(lines, start, from + 1)
    }
}

/// The index of the first line that starts at `start`.
pub open spec fn first_line(lines: Seq<LineRecord>, start: u64) -> Option<int> {
    first_line_from(lines, start, 0)
}

/// The first line that starts at `start` now ends at `end`.
pub open spec fn relink(lines: Seq<LineRecord>, start: u64, end: Option<u64>) -> Seq<LineRecord> {
    match first_line(lines, start) {
        Some(i) => lines.update(i, LineRecord { end: end, ..lines[i] }),
        None => lines,
    }
}

/// `relink` for each (square, new end) of `updates` in turn.
pub open spec fn relink_all(lines: Seq<LineRecord>, updates: Seq<(u64, Option<u64>)>) -> Seq<LineRecord>
    decreases updates.len(),
{
    if updates.len() == 0 {
        lines
    } else {
        relink(relink_all(lines, updates.drop_last()), updates.last().0, updates.last().1)
    }
}

/// The lines to despawn when each square of `removed` lost its relation: the
/// first line from each, where there is one.
pub open spec fn lines_of(lines: Seq<LineRecord>, removed: Seq<u64>) -> Seq<u64>
    decreases removed.len(),
{
    if removed.len() == 0 {
        Seq::empty()
    } else {
        let before = lines_of(lines, removed.drop_last());
        match first_line(lines, removed.last()) {
            Some(i) => before.push(lines[i].line),
            None => before,
        }
    }
}

/// The first line that starts at `start` is a line that does, and no line
/// before it does.
pub proof fn lemma_first_line(lines: Seq<LineRecord>, start: u64, from: int)
    requires
        0 <= from,
    ensures
        match first_line_from(lines, start, from) {
            Some(i) => {
                &&& from <= i < lines.len()
                &&& lines[i].start == start
                &&& forall|j: int| from <= j < i ==> lines[j].start != start
            },
            None => forall|j: int| from <= j < lines.len() ==> lines[j].start != start,
        },
    decreases lines.len() - from,
{
    if from < lines.len() && lines[from].start != start {
        lemma_first_line(lines, start, from + 1);
    }
}

/// Finds the first line that starts at `start`.
fn find_line(lines: &Vec<LineRecord>, start: u64) -> (r: Option<usize>)
    ensures
        match r {
            Some(i) => first_line(lines@, start) == Some(i as int) && i < lines@.len(),
            None => first_line(lines@, start) is None,
        },
{
    let mut i: usize = 0;
    while i < lines.len()
        invariant
            i <= lines.len(),
            first_line(lines@, start) == first_line_from(lines@, start, i as int),
        decreases lines.len() - i,
    {
        if lines[i].start == start {
            return Some(i);
        }
        i = i + 1;
    }
    None
}

/// Points the first line that starts at `start` to `end`.
pub fn relink_line(lines: &mut Vec<LineRecord>, start: u64, end: Option<u64>)
    ensures
        final(lines)@ == relink(old(lines)@, start, end),
{
    match find_line(lines, start) {
        Some(i) => {
            let old_line = lines[i];
            lines.set(i, LineRecord { end: end, ..old_line });
        },
        None => {},
    }
}

/// Points the first line from each square of `updates` to its new end, in turn.
pub fn relink_lines(lines: &mut Vec<LineRecord>, updates: &Vec<(u64, Option<u64>)>)
    ensures
        final(lines)@ == relink_all(old(lines)@, updates@),
{
    let mut k: usize = 0;
    while k < updates.len()
        invariant
            k <= updates.len(),
            lines@ == relink_all(old(lines)@, updates@.take(k as int)),
        decreases updates.len() - k,
    {
        proof { assert(updates@.take(k + 1).drop_last() =~= updates@.take(k as int)); }
        let (square, end) = updates[k];
        relink_line(lines, square, end);
        k = k + 1;
    }
    assert(updates@.take(updates.len() as int) =~= updates@);
}

/// The lines to despawn for the squares in `removed` that lost their relation.
/// Despawning takes effect after the frame, so `lines` is the same for each.
pub fn remove_component_events(lines: &Vec<LineRecord>, removed: &Vec<u64>) -> (r: Vec<u64>)
    ensures
        r@ == lines_of(lines@, removed@),
{
    let mut r: Vec<u64> = Vec::new();
    let mut k: usize = 0;
    while k < removed.len()
        invariant
            k <= removed.len(),
            r@ == lines_of(lines@, removed@.take(k as int)),
        decreases removed.len() - k,
    {
        proof { assert(removed@.take(k + 1).drop_last() =~= removed@.take(k as int)); }
        match find_line(lines, removed[k]) {
            Some(i) => r.push(lines[i].line),
            None => {},
        }
        k = k + 1;
    }
    assert(removed@.take(removed.len() as int) =~= removed@);
    r
}

} // verus!
