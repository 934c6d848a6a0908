//! The outline table of a product page: the rows of labelled cells, held
//! by label, consumed one label at a time, and checked for leftovers.

use crate::error::{residual, DlsiteError, FailureKind};
use crate::text::{decimal_digits, decimal_string, str_eq, trim, trimmed};
use vstd::prelude::*;

verus! {

/// A link as it was read: its text nodes and its target.
#[derive(Debug, PartialEq, Eq)]
pub struct RawAnchor {
    pub texts: Vec<String>,
    pub href: Option<String>,
}

pub struct RawAnchorView {
    pub texts: Seq<Seq<char>>,
    pub href: Option<Seq<char>>,
}

impl DeepView for RawAnchor {
    type V = RawAnchorView;

    open spec fn deep_view(&self) -> RawAnchorView {
        RawAnchorView { texts: self.texts.deep_view(), href: self.href.deep_view() }
    }
}

/// The content cell of a row, as the field rules read it.
#[derive(Debug, PartialEq, Eq)]
pub struct RawCell {
    /// The text nodes of the cell, in document order.
    pub texts: Vec<String>,
    /// The links in the cell (`a`), in document order.
    pub links: Vec<RawAnchor>,
    /// The text nodes of the first `div` in the cell.
    pub first_div: Option<Vec<String>>,
    /// The text nodes of each child element of the first `.work_genre` in
    /// the cell.
    pub genre_items: Option<Vec<Vec<String>>>,
    /// The inner markup of the first `span` in the cell.
    pub first_span_html: Option<String>,
}

pub struct RawCellView {
    pub texts: Seq<Seq<char>>,
    pub links: Seq<RawAnchorView>,
    pub first_div: Option<Seq<Seq<char>>>,
    pub genre_items: Option<Seq<Seq<Seq<char>>>>,
    pub first_span_html: Option<Seq<char>>,
}

impl DeepView for RawCell {
    type V = RawCellView;

    open spec fn deep_view(&self) -> RawCellView {
        RawCellView {
            texts: self.texts.deep_view(),
            links: self.links.deep_view(),
            first_div: self.first_div.deep_view(),
            genre_items: self.genre_items.deep_view(),
            first_span_html: self.first_span_html.deep_view(),
        }
    }
}

/// A row of the table as it was read: the first text node of its header
/// cell, and its content cell. Either may be missing.
#[derive(Debug, PartialEq, Eq)]
pub struct RawRow {
    pub label: Option<String>,
    pub cell: Option<RawCell>,
}

pub struct RawRowView {
    pub label: Option<Seq<char>>,
    pub cell: Option<RawCellView>,
}

impl DeepView for RawRow {
    type V = RawRowView;

    open spec fn deep_view(&self) -> RawRowView {
        RawRowView { label: self.label.deep_view(), cell: self.cell.deep_view() }
    }
}

/// No label occurs twice.
pub open spec fn distinct_labels(entries: Seq<(Seq<char>, RawCellView)>) -> bool {
    forall|i: int, j: int|
        0 <= i < j < entries.len() ==> (#[trigger] entries[i]).0 != (#[trigger] entries[j]).0
}

/// Some entry has the label `label`.
pub open spec fn has_label(entries: Seq<(Seq<char>, RawCellView)>, label: Seq<char>) -> bool {
    exists|i: int| 0 <= i < entries.len() && (#[trigger] entries[i]).0 == label
}

/// The place of an entry with the label `label`.
pub open spec fn index_of(entries: Seq<(Seq<char>, RawCellView)>, label: Seq<char>) -> int {
    choose|i: int| 0 <= i < entries.len() && (#[trigger] entries[i]).0 == label
}

/// The cell under `label`.
pub open spec fn lookup(entries: Seq<(Seq<char>, RawCellView)>, label: Seq<char>) -> Option<
    RawCellView,
> {
    if has_label(entries, label) {
        Some(entries[index_of(entries, label)].1)
    } else {
        None
    }
}

/// The entries but the one under `label`.
pub open spec fn without(entries: Seq<(Seq<char>, RawCellView)>, label: Seq<char>) -> Seq<
    (Seq<char>, RawCellView),
> {
    if has_label(entries, label) {
        entries.remove(index_of(entries, label))
    } else {
        entries
    }
}

/// The entries after `row` has been seen: a row with a label and a cell is
/// entered under its trimmed label, unless that label is there already.
pub open spec fn with_row(entries: Seq<(Seq<char>, RawCellView)>, row: RawRowView) -> Seq<
    (Seq<char>, RawCellView),
> {
    match (row.label, row.cell) {
        (Some(label), Some(cell)) => if has_label(entries, trimmed(label)) {
            entries
        } else {
            entries.push((trimmed(label), cell))
        },
        _ => entries,
    }
}

/// The entries after `rows` have been seen in order, starting from
/// `entries`.
pub open spec fn with_rows(entries: Seq<(Seq<char>, RawCellView)>, rows: Seq<RawRowView>) -> Seq<
    (Seq<char>, RawCellView),
>
    decreases rows.len(),
{
    if rows.len() == 0 {
        entries
    } else {
        with_rows(with_row(entries, rows[0]), rows.drop_first())
    }
}

/// The table that `rows` make: the first row with a label wins.
pub open spec fn table_of(rows: Seq<RawRowView>) -> Seq<(Seq<char>, RawCellView)> {
    with_rows(Seq::empty(), rows)
}

/// What is left of `entries` after each of `labels` has been consumed.
pub open spec fn remaining(entries: Seq<(Seq<char>, RawCellView)>, labels: Seq<Seq<char>>) -> Seq<
    (Seq<char>, RawCellView),
>
    decreases labels.len(),
{
    if labels.len() == 0 {
        entries
    } else {
        without(remaining(entries, labels.drop_last()), labels.last())
    }
}

/// The cell that consuming `labels[k]` yields, when `labels` are consumed in
/// order.
pub open spec fn taken(entries: Seq<(Seq<char>, RawCellView)>, labels: Seq<Seq<char>>, k: int)
    -> Option<RawCellView> {
    lookup(remaining(entries, labels.take(k)), labels[k])
}

/// Each of `part` is one of `whole`.
pub open spec fn entries_among(
    part: Seq<(Seq<char>, RawCellView)>,
    whole: Seq<(Seq<char>, RawCellView)>,
) -> bool {
    forall|i: int| 0 <= i < part.len() ==> whole.contains(#[trigger] part[i])
}

/// Consuming a label leaves the labels distinct, takes nothing that was not
/// there, and leaves no entry under that label.
pub proof fn lemma_without(entries: Seq<(Seq<char>, RawCellView)>, label: Seq<char>)
    requires
        distinct_labels(entries),
    ensures
        distinct_labels(without(entries, label)),
        entries_among(without(entries, label), entries),
        !has_label(without(entries, label), label),
        forall|other: Seq<char>|
            other != label ==> lookup(without(entries, label), other) == lookup(entries, other),
{
    let rest = without(entries, label);
    if has_label(entries, label) {
        let at = index_of(entries, label);
        assert forall|i: int| 0 <= i < rest.len() implies #[trigger] rest[i] == entries[if i < at {
            i
        } else {
            i + 1
        }] by {}
        assert forall|i: int| 0 <= i < rest.len() implies entries.contains(#[trigger] rest[i]) by {
            let j = if i < at {
                i
            } else {
                i + 1
            };
            assert(entries[j] == rest[i]);
        }
        assert forall|i: int| 0 <= i < rest.len() implies (#[trigger] rest[i]).0 != label by {
            let j = if i < at {
                i
            } else {
                i + 1
            };
            assert(entries[j] == rest[i]);
            if j < at {
                assert(entries[j].0 != entries[at].0);
            } else {
                assert(entries[at].0 != entries[j].0);
            }
        }
        assert forall|i: int, j: int| 0 <= i < j < rest.len() implies (#[trigger] rest[i]).0 != (
        #[trigger] rest[j]).0 by {
            let a = if i < at {
                i
            } else {
                i + 1
            };
            let b = if j < at {
                j
            } else {
                j + 1
            };
            assert(entries[a].0 != entries[b].0);
        }
        assert forall|other: Seq<char>| other != label implies lookup(rest, other) == lookup(
            entries,
            other,
        ) by {
            if has_label(entries, other) {
                let j = index_of(entries, other);
                let i = if j < at {
                    j
                } else {
                    j - 1
                };
                assert(rest[i] == entries[j]);
                assert(has_label(rest, other));
                let k = index_of(rest, other);
                let back = if k < at {
                    k
                } else {
                    k + 1
                };
                assert(entries[back] == rest[k]);
                if back < j {
                    assert(entries[back].0 != entries[j].0);
                }
                if j < back {
                    assert(entries[j].0 != entries[back].0);
                }
            } else {
                if has_label(rest, other) {
                    let k = index_of(rest, other);
                    let back = if k < at {
                        k
                    } else {
                        k + 1
                    };
                    assert(entries[back] == rest[k]);
                }
            }
        }
    } else {
        assert forall|i: int| 0 <= i < rest.len() implies entries.contains(#[trigger] rest[i]) by {
            assert(entries[i] == rest[i]);
        }
    }
}

/// What is left after consuming `labels` has distinct labels, holds only
/// entries that were there, and holds none under any of `labels`.
pub proof fn lemma_remaining(entries: Seq<(Seq<char>, RawCellView)>, labels: Seq<Seq<char>>)
    requires
        distinct_labels(entries),
    ensures
        distinct_labels(remaining(entries, labels)),
        entries_among(remaining(entries, labels), entries),
        forall|k: int| 0 <= k < labels.len() ==> !has_label(remaining(entries, labels), #[trigger] labels[k]),
    decreases labels.len(),
{
    if labels.len() > 0 {
        let before = remaining(entries, labels.drop_last());
        lemma_remaining(entries, labels.drop_last());
        lemma_without(before, labels.last());
        let after = remaining(entries, labels);
        assert forall|i: int| 0 <= i < after.len() implies entries.contains(#[trigger] after[i]) by {
            assert(before.contains(after[i]));
        }
        assert forall|k: int| 0 <= k < labels.len() implies !has_label(after, #[trigger] labels[k]) by {
            if k < labels.len() - 1 {
                assert(labels.drop_last()[k] == labels[k]);
                if has_label(after, labels[k]) {
                    let i = index_of(after, labels[k]);
                    assert(before.contains(after[i]));
                    let j = choose|j: int| 0 <= j < before.len() && before[j] == after[i];
                    assert(before[j].0 == labels[k]);
                    assert(has_label(before, labels[k]));
                }
            }
        }
    }
}

/// A table all of whose labels are known is used up by consuming the known
/// labels: where the labels are distinct and each is among `labels`,
/// nothing is left after `labels` have been consumed.
pub proof fn law_known_labels_leave_nothing(
    entries: Seq<(Seq<char>, RawCellView)>,
    labels: Seq<Seq<char>>,
)
    requires
        distinct_labels(entries),
        forall|i: int| 0 <= i < entries.len() ==> labels.contains((#[trigger] entries[i]).0),
    ensures
        remaining(entries, labels).len() == 0,
{
    lemma_remaining(entries, labels);
    let left = remaining(entries, labels);
    if left.len() > 0 {
        assert(entries.contains(left[0]));
        let j = choose|j: int| 0 <= j < entries.len() && entries[j] == left[0];
        assert(labels.contains(entries[j].0));
        let k = choose|k: int| 0 <= k < labels.len() && labels[k] == entries[j].0;
        assert(!has_label(left, labels[k]));
        assert(left[0].0 == labels[k]);
    }
}

/// A row that no rule knows is left over: an entry whose label is none of
/// `labels` is still there after `labels` have been consumed.
pub proof fn law_unknown_label_is_left(
    entries: Seq<(Seq<char>, RawCellView)>,
    labels: Seq<Seq<char>>,
    label: Seq<char>,
)
    requires
        distinct_labels(entries),
        has_label(entries, label),
        !labels.contains(label),
    ensures
        has_label(remaining(entries, labels), label),
        lookup(remaining(entries, labels), label) == lookup(entries, label),
    decreases labels.len(),
{
    if labels.len() > 0 {
        let earlier = labels.drop_last();
        assert(!earlier.contains(label)) by {
            if earlier.contains(label) {
                let k = choose|k: int| 0 <= k < earlier.len() && earlier[k] == label;
                assert(labels[k] == label);
            }
        }
        law_unknown_label_is_left(entries, earlier, label);
        lemma_remaining(entries, earlier);
        lemma_without(remaining(entries, earlier), labels.last());
        assert(labels.last() != label) by {
            if labels.last() == label {
                assert(labels[labels.len() - 1] == label);
            }
        }
    }
}

/// Where no label is asked for twice, each label yields the cell that the
/// table held under it at the start.
pub proof fn law_distinct_labels_take_from_the_start(
    entries: Seq<(Seq<char>, RawCellView)>,
    labels: Seq<Seq<char>>,
    k: int,
)
    requires
        distinct_labels(entries),
        0 <= k < labels.len(),
        forall|i: int| 0 <= i < k ==> labels[i] != labels[k],
    ensures
        taken(entries, labels, k) == lookup(entries, labels[k]),
{
    lemma_lookup_after(entries, labels.take(k), labels[k]);
}

/// Consuming other labels does not change what is under `label`.
pub proof fn lemma_lookup_after(
    entries: Seq<(Seq<char>, RawCellView)>,
    consumed: Seq<Seq<char>>,
    label: Seq<char>,
)
    requires
        distinct_labels(entries),
        forall|i: int| 0 <= i < consumed.len() ==> consumed[i] != label,
    ensures
        lookup(remaining(entries, consumed), label) == lookup(entries, label),
    decreases consumed.len(),
{
    if consumed.len() > 0 {
        lemma_lookup_after(entries, consumed.drop_last(), label);
        lemma_remaining(entries, consumed.drop_last());
        lemma_without(remaining(entries, consumed.drop_last()), consumed.last());
    }
}

/// The rows make a table of distinct labels.
pub proof fn lemma_rows_make_distinct_labels(
    entries: Seq<(Seq<char>, RawCellView)>,
    rows: Seq<RawRowView>,
)
    requires
        distinct_labels(entries),
    ensures
        distinct_labels(with_rows(entries, rows)),
    decreases rows.len(),
{
    if rows.len() > 0 {
        let next = with_row(entries, rows[0]);
        assert(distinct_labels(next)) by {
            match (rows[0].label, rows[0].cell) {
                (Some(label), Some(cell)) => {
                    if !has_label(entries, trimmed(label)) {
                        assert forall|i: int, j: int| 0 <= i < j < next.len() implies (
                        #[trigger] next[i]).0 != (#[trigger] next[j]).0 by {
                            if j == entries.len() {
                                assert(entries[i] == next[i]);
                            } else {
                                assert(entries[i] == next[i]);
                                assert(entries[j] == next[j]);
                            }
                        }
                    }
                },
                _ => {},
            }
        }
        lemma_rows_make_distinct_labels(next, rows.drop_first());
    }
}

/// The outline table: cells by label, in the order of their rows.
#[derive(Debug)]
pub struct OutlineTable {
    entries: Vec<(String, RawCell)>,
}

impl View for OutlineTable {
    /// The labels with their cells, in the order of the rows.
    type V = Seq<(Seq<char>, RawCellView)>;

    closed spec fn view(&self) -> Seq<(Seq<char>, RawCellView)> {
        self.entries.deep_view()
    }
}

impl OutlineTable {
    /// Each label maps to one cell.
    pub open spec fn wf(&self) -> bool {
        distinct_labels(self@)
    }

    fn position(&self, label: &str) -> (r: Option<usize>)
        requires
            self.wf(),
        ensures
            match r {
                Some(i) => has_label(self@, label@) && i == index_of(self@, label@) && i
                    < self.entries.len(),
                None => !has_label(self@, label@),
            },
    {
        let mut i: usize = 0;
        while i < self.entries.len()
            invariant
                i <= self.entries.len(),
                self.wf(),
                forall|j: int| 0 <= j < i ==> (#[trigger] self@[j]).0 != label@,
            decreases self.entries.len() - i,
        {
            if str_eq(self.entries[i].0.as_str(), label) {
                proof {
                    assert(self@[i as int].0 == label@);
                    let c = index_of(self@, label@);
                    assert(self@[c].0 == label@);
                    if c < i {
                        assert(self@[c].0 != label@);
                    }
                    if i < c {
                        assert(self@[i as int].0 != self@[c].0);
                    }
                }
                return Some(i);
            }
            i += 1;
        }
        None
    }

    /// The table that `rows` make. Where two rows have the same label, the
    /// first is kept.
    pub fn from_rows(rows: Vec<RawRow>) -> (table: OutlineTable)
        ensures
            table.wf(),
            table@ == table_of(rows.deep_view()),
    {
        let ghost all = rows.deep_view();
        let mut rows = rows;
        let mut table = OutlineTable { entries: Vec::new() };
        proof {
            assert(table@ =~= Seq::empty());
        }
        while rows.len() > 0
            invariant
                table.wf(),
                with_rows(table@, rows.deep_view()) == table_of(all),
            decreases rows.len(),
        {
            let ghost before_rows = rows.deep_view();
            let ghost before = table@;
            let row = rows.remove(0);
            proof {
                assert(rows.deep_view() =~= before_rows.drop_first());
                assert(row.deep_view() == before_rows[0]);
            }
            match (row.label, row.cell) {
                (Some(label), Some(cell)) => {
                    let key = trim(label.as_str());
                    if table.position(key.as_str()).is_none() {
                        table.entries.push((key, cell));
                        proof {
                            assert(table@ =~= before.push((key@, cell.deep_view())));
                            assert forall|i: int, j: int| 0 <= i < j < table@.len() implies (
                            #[trigger] table@[i]).0 != (#[trigger] table@[j]).0 by {
                                if j == before.len() {
                                    assert(before[i].0 != key@);
                                }
                            }
                        }
                    }
                },
                _ => {},
            }
        }
        table
    }

    /// The number of entries.
    pub fn len(&self) -> (n: usize)
        ensures
            n == self@.len(),
    {
        self.entries.len()
    }

    /// The cell under `label`, which stays in the table.
    pub fn get(&self, label: &str) -> (cell: Option<&RawCell>)
        requires
            self.wf(),
        ensures
            cell.deep_view() == lookup(self@, label@),
    {
        match self.position(label) {
            Some(i) => Some(&self.entries[i].1),
            None => None,
        }
    }

    /// Removes the entry under `label` and returns its cell.
    pub fn consume(&mut self, label: &str) -> (cell: Option<RawCell>)
        requires
            old(self).wf(),
        ensures
            final(self).wf(),
            final(self)@ == without(old(self)@, label@),
            cell.deep_view() == lookup(old(self)@, label@),
    {
        match self.position(label) {
            Some(i) => {
                let ghost before = self@;
                let entry = self.entries.remove(i);
                proof {
                    assert(self@ =~= before.remove(i as int));
                    assert(entry.1.deep_view() == before[i as int].1);
                }
                Some(entry.1)
            },
            None => None,
        }
    }

    /// Consumes `labels` in order. The cells come back in the order of
    /// `labels`.
    pub fn consume_all(&mut self, labels: &Vec<String>) -> (cells: Vec<Option<RawCell>>)
        requires
            old(self).wf(),
        ensures
            final(self).wf(),
            final(self)@ == remaining(old(self)@, labels.deep_view()),
            cells.len() == labels.len(),
            forall|k: int|
                0 <= k < labels.len() ==> (#[trigger] cells[k]).deep_view() == taken(
                    old(self)@,
                    labels.deep_view(),
                    k,
                ),
    {
        let ghost start = self@;
        let mut cells: Vec<Option<RawCell>> = Vec::new();
        let mut k: usize = 0;
        while k < labels.len()
            invariant
                k <= labels.len(),
                self.wf(),
                cells.len() == k,
                self@ == remaining(start, labels.deep_view().take(k as int)),
                forall|j: int|
                    0 <= j < k ==> (#[trigger] cells[j]).deep_view() == taken(
                        start,
                        labels.deep_view(),
                        j,
                    ),
            decreases labels.len() - k,
        {
            proof {
                assert(labels.deep_view().take(k as int + 1).drop_last() =~= labels.deep_view().take(
                    k as int,
                ));
            }
            let cell = self.consume(labels[k].as_str());
            cells.push(cell);
            k += 1;
        }
        proof {
            assert(labels.deep_view().take(labels.len() as int) =~= labels.deep_view());
        }
        cells
    }

    /// Succeeds where every entry has been consumed. An entry that is left
    /// is a row that no field rule knows: the error carries how many there
    /// are.
    pub fn finish(&self) -> (r: Result<(), DlsiteError>)
        ensures
            match r {
                Ok(_) => self@.len() == 0,
                Err(e) => self@.len() > 0 && e.is_failure(
                    residual("failed to parse tags "@ + decimal_digits(self@.len())),
                ),
            },
    {
        if self.entries.len() == 0 {
            Ok(())
        } else {
            let mut message = "failed to parse tags ".to_owned();
            message.append(decimal_string(self.entries.len() as u64).as_str());
            Err(DlsiteError::Parse(FailureKind::ResidualField, message))
        }
    }
}

} // verus!
