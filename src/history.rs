//! Command history with a recall cursor for older/newer navigation.
use vstd::prelude::*;

use crate::text::{is_blank, lemma_blank_trims_empty, trim, trimmed, views};

verus! {

/// What the history holds: the entries, oldest first, and the entry being
/// browsed, if any (`None`: the input line is live input).
pub ghost struct HistoryModel {
    pub entries: Seq<Seq<char>>,
    pub position: Option<nat>,
}

/// What moving towards newer entries asks of the input line.
pub ghost enum RecallModel {
    Entry(Seq<char>),
    Clear,
    Unchanged,
}

/// The position, when there is one, indexes an entry.
pub open spec fn history_wf(h: HistoryModel) -> bool {
    match h.position {
        Some(p) => p < h.entries.len(),
        None => true,
    }
}

/// `record`: keep `e` if it is not blank once trimmed; stop browsing.
pub open spec fn record_spec(h: HistoryModel, e: Seq<char>) -> HistoryModel {
    HistoryModel {
        entries: if trimmed(e).len() > 0 {
            h.entries.push(e)
        } else {
            h.entries
        },
        position: None,
    }
}

/// `older`: the new state, and the entry now shown if the cursor moved.
pub open spec fn older_spec(h: HistoryModel) -> (HistoryModel, Option<Seq<char>>) {
    match h.position {
        None => if h.entries.len() > 0 {
            let p = (h.entries.len() - 1) as nat;
            (HistoryModel { position: Some(p), ..h }, Some(h.entries[p as int]))
        } else {
            (h, None)
        },
        Some(p) => if p > 0 {
            let q = (p - 1) as nat;
            (HistoryModel { position: Some(q), ..h }, Some(h.entries[q as int]))
        } else {
            (h, None)
        },
    }
}

/// `newer`: the new state, and what the input line should become.
pub open spec fn newer_spec(h: HistoryModel) -> (HistoryModel, RecallModel) {
    match h.position {
        None => (h, RecallModel::Unchanged),
        Some(p) => if p + 1 < h.entries.len() {
            let q = (p + 1) as nat;
            (HistoryModel { position: Some(q), ..h }, RecallModel::Entry(h.entries[q as int]))
        } else {
            (HistoryModel { position: None, ..h }, RecallModel::Clear)
        },
    }
}

/// The state after `k` calls of `older`.
pub open spec fn older_n(h: HistoryModel, k: nat) -> HistoryModel
    decreases k,
{
    if k == 0 {
        h
    } else {
        older_spec(older_n(h, (k - 1) as nat)).0
    }
}

/// The state after `k` calls of `newer`.
pub open spec fn newer_n(h: HistoryModel, k: nat) -> HistoryModel
    decreases k,
{
    if k == 0 {
        h
    } else {
        newer_spec(newer_n(h, (k - 1) as nat)).0
    }
}

/// What moving towards newer entries asks of the input line.
pub enum Recall {
    /// Show this entry.
    Entry(String),
    /// The cursor left the newest entry: clear the input line.
    Clear,
    /// Nothing was being browsed: leave the input line as it is.
    Unchanged,
}

impl Recall {
    /// The same answer with the entry's text as its view.
    pub open spec fn model(&self) -> RecallModel {
        match self {
            Recall::Entry(s) => RecallModel::Entry(s@),
            Recall::Clear => RecallModel::Clear,
            Recall::Unchanged => RecallModel::Unchanged,
        }
    }
}

/// The view of an optional string.
pub open spec fn opt_view(o: Option<String>) -> Option<Seq<char>> {
    match o {
        Some(s) => Some(s@),
        None => None,
    }
}

/// Previously submitted command lines and a recall cursor into them.
pub struct HistoryCursor {
    entries: Vec<String>,
    position: Option<usize>,
}

impl View for HistoryCursor {
    type V = HistoryModel;

    closed spec fn view(&self) -> HistoryModel {
        HistoryModel {
            entries: views(self.entries@),
            position: match self.position {
                Some(p) => Some(p as nat),
                None => None,
            },
        }
    }
}

impl HistoryCursor {
    /// The position, when there is one, indexes an entry.
    pub open spec fn wf(&self) -> bool {
        history_wf(self@)
    }

    /// An empty history, not browsing.
    pub fn new() -> (r: Self)
        ensures
            r.wf(),
            r@.entries == Seq::<Seq<char>>::empty(),
            r@.position is None,
    {
        let r = HistoryCursor { entries: Vec::new(), position: None };
        assert(r@.entries =~= Seq::<Seq<char>>::empty());
        r
    }

    /// The entries, oldest first.
    pub fn entries(&self) -> (r: &Vec<String>)
        ensures
            views(r@) == self@.entries,
    {
        &self.entries
    }

    /// The index of the entry being browsed, if any.
    pub fn position(&self) -> (r: Option<usize>)
        ensures
            r matches Some(p) ==> self@.position == Some(p as nat),
            r is None <==> self@.position is None,
    {
        self.position
    }

    /// Appends `entry` unless it is blank once trimmed; always stops browsing.
    /// Blank text is never recorded.
    pub fn record(&mut self, entry: String)
        requires
            old(self).wf(),
        ensures
            final(self).wf(),
            final(self)@ == record_spec(old(self)@, entry@),
            is_blank(entry@) ==> final(self)@.entries == old(self)@.entries,
    {
        proof {
            if is_blank(entry@) {
                lemma_blank_trims_empty(entry@);
            }
        }
        let t = trim(entry.as_str());
        if t.as_str().unicode_len() > 0 {
            let ghost prev = self.entries@;
            self.entries.push(entry);
            assert(views(self.entries@) =~= views(prev).push(entry@));
        }
        self.position = None;
        assert(self@ == record_spec(old(self)@, entry@));
    }

    /// Moves to the next older entry and returns it; `None` when the cursor
    /// is already at the oldest entry or the history is empty.
    pub fn older(&mut self) -> (r: Option<String>)
        requires
            old(self).wf(),
        ensures
            final(self).wf(),
            (final(self)@, opt_view(r)) == older_spec(old(self)@),
    {
        match self.position {
            None => {
                if self.entries.len() > 0 {
                    let p = self.entries.len() - 1;
                    self.position = Some(p);
                    let e = self.entries[p].clone();
                    assert(e@ == old(self)@.entries[p as int]);
                    assert(self@ == older_spec(old(self)@).0);
                    Some(e)
                } else {
                    None
                }
            },
            Some(p) => {
                if p > 0 {
                    self.position = Some(p - 1);
                    let e = self.entries[p - 1].clone();
                    assert(e@ == old(self)@.entries[p - 1]);
                    assert(self@ == older_spec(old(self)@).0);
                    Some(e)
                } else {
                    None
                }
            },
        }
    }

    /// Moves to the next newer entry and returns it; past the newest entry,
    /// stops browsing and asks for the input line to be cleared.
    pub fn newer(&mut self) -> (r: Recall)
        requires
            old(self).wf(),
        ensures
            final(self).wf(),
            (final(self)@, r.model()) == newer_spec(old(self)@),
    {
        match self.position {
            None => Recall::Unchanged,
            Some(p) => {
                assert(self@.entries.len() == self.entries@.len());
                assert(self@.position == Some(p as nat));
                assert(p < self.entries.len());
                if p + 1 < self.entries.len() {
                    self.position = Some(p + 1);
                    let e = self.entries[p + 1].clone();
                    assert(e@ == old(self)@.entries[p + 1]);
                    assert(self@ == newer_spec(old(self)@).0);
                    Recall::Entry(e)
                } else {
                    self.position = None;
                    assert(self@ == newer_spec(old(self)@).0);
                    Recall::Clear
                }
            },
        }
    }
}

/// Recording a non-blank entry and then moving to an older entry shows that
/// entry; on a history that held nothing before, a second move is a no-op
/// that shows nothing.
pub proof fn lemma_record_then_older(h: HistoryModel, e: Seq<char>)
    requires
        history_wf(h),
        trimmed(e).len() > 0,
    ensures
        older_spec(record_spec(h, e)).1 == Some(e),
        h.entries.len() == 0 ==> ({
            let once = older_spec(record_spec(h, e)).0;
            older_spec(once) == (once, None::<Seq<char>>)
        }),
{
}

proof fn lemma_older_n_position(h: HistoryModel, k: nat)
    requires
        history_wf(h),
        h.position is None,
        h.entries.len() > 0,
        k >= 1,
    ensures
        older_n(h, k) == (HistoryModel {
            entries: h.entries,
            position: Some(
                if k <= h.entries.len() {
                    (h.entries.len() - k) as nat
                } else {
                    0
                },
            ),
        }),
    decreases k,
{
    if k > 1 {
        lemma_older_n_position(h, (k - 1) as nat);
    } else {
        assert(older_n(h, 0) == h);
    }
}

proof fn lemma_newer_n_position(b: HistoryModel, p: nat, j: nat)
    requires
        b.position == Some(p),
        p + j < b.entries.len(),
    ensures
        newer_n(b, j) == (HistoryModel { entries: b.entries, position: Some(p + j) }),
    decreases j,
{
    if j > 0 {
        lemma_newer_n_position(b, p, (j - 1) as nat);
    }
}

/// Browsing and coming back: from a non-empty history that is not being
/// browsed, any `k >= 1` moves to older entries followed by moves to newer
/// entries show an entry at each step until the one that asks to clear the
/// input line, and that one restores the state from before browsing.
pub proof fn lemma_browse_round_trip(h: HistoryModel, k: nat)
    requires
        history_wf(h),
        h.position is None,
        h.entries.len() > 0,
        k >= 1,
    ensures
        ({
            let b = older_n(h, k);
            let p = b.position.unwrap();
            let steps = (h.entries.len() - p) as nat;
            &&& b.position is Some
            &&& forall|j: nat|
                j + 1 < steps ==> #[trigger] newer_spec(newer_n(b, j)).1 is Entry
            &&& newer_spec(newer_n(b, (steps - 1) as nat)).1 == RecallModel::Clear
            &&& newer_n(b, steps) == h
        }),
{
    lemma_older_n_position(h, k);
    let b = older_n(h, k);
    let p = b.position.unwrap();
    let steps = (h.entries.len() - p) as nat;
    assert forall|j: nat| j + 1 < steps implies #[trigger] newer_spec(newer_n(b, j)).1 is Entry by {
        lemma_newer_n_position(b, p, j);
    }
    lemma_newer_n_position(b, p, (steps - 1) as nat);
    assert(newer_n(b, steps) == newer_spec(newer_n(b, (steps - 1) as nat)).0);
}

} // verus!
