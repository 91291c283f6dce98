//! Command history with a navigable cursor.
//!
//! The history is the sequence of committed lines followed by one staging
//! entry, which is always present and always empty. The cursor names one of
//! these entries; resting on the staging entry means that no committed line is
//! being recalled.

use vstd::prelude::*;

verus! {

/// Mathematical model of a [`History`]: the committed lines, oldest first, and
/// the cursor. A cursor equal to `committed.len()` rests on the staging entry.
pub struct HistoryModel {
    pub committed: Seq<Seq<char>>,
    pub cursor: nat,
}

impl HistoryModel {
    /// The cursor names a committed line or the staging entry.
    pub open spec fn wf(self) -> bool {
        self.cursor <= self.committed.len()
    }

    /// The history that holds nothing but the staging entry.
    pub open spec fn empty() -> HistoryModel {
        HistoryModel { committed: Seq::empty(), cursor: 0 }
    }

    /// Whether the cursor rests on the staging entry.
    pub open spec fn at_staging(self) -> bool {
        self.cursor == self.committed.len()
    }

    /// The line under the cursor; the staging entry reads as the empty line.
    pub open spec fn current(self) -> Seq<char> {
        if self.cursor < self.committed.len() {
            self.committed[self.cursor as int]
        } else {
            Seq::empty()
        }
    }

    /// One step towards the oldest line, staying there once it is reached.
    pub open spec fn prev(self) -> HistoryModel {
        if self.cursor > 0 {
            HistoryModel { cursor: (self.cursor - 1) as nat, ..self }
        } else {
            self
        }
    }

    /// One step towards the staging entry, staying there once it is reached.
    pub open spec fn next(self) -> HistoryModel {
        if self.cursor < self.committed.len() {
            HistoryModel { cursor: self.cursor + 1, ..self }
        } else {
            self
        }
    }

    /// Appends `entry` as the newest committed line. The cursor keeps its
    /// position, so a cursor that rested on the staging entry now names the
    /// new line.
    pub open spec fn add(self, entry: Seq<char>) -> HistoryModel {
        HistoryModel { committed: self.committed.push(entry), ..self }
    }

    /// Moves the cursor to the staging entry.
    pub open spec fn reset(self) -> HistoryModel {
        HistoryModel { cursor: self.committed.len(), ..self }
    }

    /// A submission: the line is committed and the cursor returns to staging.
    pub open spec fn submit(self, entry: Seq<char>) -> HistoryModel {
        self.add(entry).reset()
    }

    /// The history after submitting each of `lines` in order.
    pub open spec fn submit_all(self, lines: Seq<Seq<char>>) -> HistoryModel
        decreases lines.len(),
    {
        if lines.len() == 0 {
            self
        } else {
            self.submit_all(lines.drop_last()).submit(lines.last())
        }
    }

    /// The history after `presses` steps towards the oldest line.
    pub open spec fn prev_times(self, presses: nat) -> HistoryModel
        decreases presses,
    {
        if presses == 0 {
            self
        } else {
            self.prev_times((presses - 1) as nat).prev()
        }
    }
}

/// Ordered command history with its cursor.
pub struct History {
    hist: Vec<String>,
    index: usize,
}

impl View for History {
    type V = HistoryModel;

    closed spec fn view(&self) -> HistoryModel {
        HistoryModel {
            committed: self.hist.deep_view().drop_last(),
            cursor: self.index as nat,
        }
    }
}

impl History {
    /// The staging entry is present and empty, and the cursor is in range.
    pub closed spec fn wf(&self) -> bool {
        &&& self.hist@.len() >= 1
        &&& self.index < self.hist@.len()
        &&& self.hist@.last()@ == Seq::<char>::empty()
    }

    /// A well-formed history has a well-formed model.
    pub proof fn lemma_wf_model(&self)
        requires
            self.wf(),
        ensures
            self@.wf(),
    {
    }

    /// A history that holds only the staging entry.
    pub fn new() -> (history: Self)
        ensures
            history.wf(),
            history@ == HistoryModel::empty(),
    {
        let mut hist: Vec<String> = Vec::new();
        hist.push(String::new());
        let history = History { hist, index: 0 };
        assert(history@.committed =~= Seq::<Seq<char>>::empty());
        history
    }

    /// Number of committed lines.
    pub fn len(&self) -> (count: usize)
        requires
            self.wf(),
        ensures
            count == self@.committed.len(),
    {
        self.hist.len() - 1
    }

    /// Position of the cursor: the number of committed lines older than the
    /// entry it names.
    pub fn cursor(&self) -> (cursor: usize)
        ensures
            cursor == self@.cursor,
    {
        self.index
    }

    /// The committed line at position `at`, counted from the oldest.
    pub fn line(&self, at: usize) -> (line: Option<&str>)
        requires
            self.wf(),
        ensures
            at < self@.committed.len() ==> (line matches Some(text) && text@
                == self@.committed[at as int]),
            at >= self@.committed.len() ==> line is None,
    {
        if at < self.hist.len() - 1 {
            Some(self.hist[at].as_str())
        } else {
            None
        }
    }

    /// Moves the cursor one line towards the oldest and returns the line it
    /// then names; at the oldest line the cursor stays.
    pub fn prev_cmd(&mut self) -> (line: String)
        requires
            old(self).wf(),
        ensures
            final(self).wf(),
            final(self)@ == old(self)@.prev(),
            line@ == final(self)@.current(),
    {
        if self.index > 0 {
            self.index -= 1;
        }
        self.hist[self.index].clone()
    }

    /// Moves the cursor one line towards the staging entry and returns the
    /// line it then names; at the staging entry the cursor stays and the
    /// empty line is returned.
    pub fn next_cmd(&mut self) -> (line: String)
        requires
            old(self).wf(),
        ensures
            final(self).wf(),
            final(self)@ == old(self)@.next(),
            line@ == final(self)@.current(),
    {
        if self.index < self.hist.len() - 1 {
            self.index += 1;
        }
        self.hist[self.index].clone()
    }

    /// Commits `entry` as the newest line, in front of the staging entry. The
    /// cursor is left where it was.
    pub fn add(&mut self, entry: String)
        requires
            old(self).wf(),
        ensures
            final(self).wf(),
            final(self)@ == old(self)@.add(entry@),
    {
        let at: usize = self.hist.len() - 1;
        self.hist.insert(at, entry);
        assert(self@.committed =~= old(self)@.committed.push(entry@));
    }

    /// Returns the cursor to the staging entry.
    pub fn reset(&mut self)
        requires
            old(self).wf(),
        ensures
            final(self).wf(),
            final(self)@ == old(self)@.reset(),
    {
        self.index = self.hist.len() - 1;
    }
}

/// Submitting lines appends them to the committed lines in order and leaves
/// the cursor on the staging entry.
pub proof fn lemma_submit_all(start: HistoryModel, lines: Seq<Seq<char>>)
    requires
        start.wf(),
    ensures
        start.submit_all(lines).committed == start.committed + lines,
        lines.len() > 0 ==> start.submit_all(lines).at_staging(),
        lines.len() == 0 ==> start.submit_all(lines) == start,
        start.submit_all(lines).wf(),
    decreases lines.len(),
{
    if lines.len() > 0 {
        lemma_submit_all(start, lines.drop_last());
    }
}

/// Stepping towards the oldest line never changes what is committed, and
/// moves the cursor down by the number of presses, stopping at zero.
pub proof fn lemma_prev_times(history: HistoryModel, presses: nat)
    requires
        history.wf(),
    ensures
        history.prev_times(presses).committed == history.committed,
        history.prev_times(presses).cursor == if presses <= history.cursor {
            (history.cursor - presses) as nat
        } else {
            0
        },
        history.prev_times(presses).wf(),
    decreases presses,
{
    if presses > 0 {
        lemma_prev_times(history, (presses - 1) as nat);
    }
}

/// After the lines `lines` have been submitted one after the other, with no
/// navigation in between, the `presses`-th step towards the oldest line
/// recalls the `presses`-th newest of them: the submissions come back in
/// reverse order.
pub proof fn lemma_recall_newest_first(start: HistoryModel, lines: Seq<Seq<char>>, presses: nat)
    requires
        start.wf(),
        1 <= presses <= lines.len(),
    ensures
        start.submit_all(lines).prev_times(presses).current() == lines[lines.len() - presses],
{
    lemma_submit_all(start, lines);
    lemma_prev_times(start.submit_all(lines), presses);
}

/// Once every committed line has been stepped over, further steps towards
/// the oldest line change nothing: the cursor stays on the oldest line. Here
/// the history held `start` before `lines` were submitted, so there are as
/// many lines to step over as both hold together.
pub proof fn lemma_recall_stops_at_oldest(
    start: HistoryModel,
    lines: Seq<Seq<char>>,
    presses: nat,
)
    requires
        start.wf(),
        lines.len() > 0,
        presses >= start.committed.len() + lines.len(),
    ensures
        start.submit_all(lines).prev_times(presses) == start.submit_all(lines).prev_times(
            start.committed.len() + lines.len(),
        ),
        start.submit_all(lines).prev_times(presses).current() == (start.committed + lines)[0],
{
    let filled = start.submit_all(lines);
    lemma_submit_all(start, lines);
    lemma_prev_times(filled, presses);
    lemma_prev_times(filled, start.committed.len() + lines.len());
}

/// From the newest committed line, one step towards the staging entry
/// reaches it, and the line recalled there is empty.
pub proof fn lemma_next_from_newest_is_staging(history: HistoryModel)
    requires
        history.wf(),
        history.committed.len() > 0,
        history.cursor == history.committed.len() - 1,
    ensures
        history.next().at_staging(),
        history.next().current() == Seq::<char>::empty(),
{
}

/// Stepping towards the staging entry from the staging entry changes nothing.
pub proof fn lemma_next_at_staging_stays(history: HistoryModel)
    requires
        history.wf(),
        history.at_staging(),
    ensures
        history.next() == history,
        history.next().current() == Seq::<char>::empty(),
{
}

} // verus!
