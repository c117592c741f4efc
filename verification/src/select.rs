//! What becomes of an interactive selection and of a confirmation.
//!
//! The front end shows the prompts; this module says what they ask and reads
//! the answers. A selection ends in one of three ways: some items were chosen,
//! none was chosen, or the operator cancelled. A confirmation proceeds only on
//! the explicit choice of the affirmative option.

use crate::output::{line, Line, LineKind, LineView};
use crate::text::{concat3, decimal, decimal_string};
use vstd::prelude::*;
use vstd::string::StringExecFns;

verus! {

/// How a multi-selection ended.
#[derive(Debug, Clone, PartialEq, Eq)]
pub enum Selection {
    /// At least one item was chosen; holds the chosen items in the order in
    /// which they were picked.
    Confirmed { items: Vec<String> },
    /// The operator confirmed without choosing an item.
    EmptySelection,
    /// The operator left the prompt without confirming.
    Cancelled,
}

/// The model of a [`Selection`].
pub enum SelectionView {
    Confirmed { items: Seq<Seq<char>> },
    EmptySelection,
    Cancelled,
}

impl View for Selection {
    type V = SelectionView;

    open spec fn view(&self) -> SelectionView {
        match *self {
            Selection::Confirmed { items } => SelectionView::Confirmed {
                items: items.deep_view(),
            },
            Selection::EmptySelection => SelectionView::EmptySelection,
            Selection::Cancelled => SelectionView::Cancelled,
        }
    }
}

/// Whether every pick is the index of one of `count` items.
pub open spec fn picks_in_range(count: nat, picked: Seq<usize>) -> bool {
    forall|i: int| 0 <= i < picked.len() ==> picked[i] < count
}

/// The items at the picked indices, in the order of the picks.
pub open spec fn chosen(items: Seq<Seq<char>>, picked: Seq<usize>) -> Seq<Seq<char>> {
    picked.map_values(|i: usize| items[i as int])
}

/// The picks that a prompt returned, as a model value.
pub open spec fn picks_view(picked: Option<Vec<usize>>) -> Option<Seq<usize>> {
    match picked {
        Some(p) => Some(p@),
        None => None,
    }
}

/// How a multi-selection over `items` ended, given what the prompt returned:
/// nothing where the operator cancelled, else the picked indices.
pub open spec fn selection_of(items: Seq<Seq<char>>, picked: Option<Seq<usize>>) -> SelectionView {
    match picked {
        None => SelectionView::Cancelled,
        Some(p) => if p.len() == 0 {
            SelectionView::EmptySelection
        } else {
            SelectionView::Confirmed { items: chosen(items, p) }
        },
    }
}

/// What is said where a selection leads to no deletion; nothing where items
/// were chosen.
pub open spec fn selection_notice_of(selection: SelectionView, item_type: Seq<char>) -> Option<
    LineView,
> {
    match selection {
        SelectionView::Confirmed { .. } => None,
        SelectionView::EmptySelection => Some(
            line(LineKind::Notice, "No "@ + item_type + " selected."@),
        ),
        SelectionView::Cancelled => Some(line(LineKind::Notice, "Selection cancelled."@)),
    }
}

/// The question that a confirmation asks.
pub open spec fn confirm_prompt_text(item_type: Seq<char>, count: nat, place: Seq<char>) -> Seq<
    char,
> {
    "Delete these "@ + decimal(count) + " "@ + item_type + " from "@ + place + "?"@
}

/// Whether the answer to a confirmation lets the deletion proceed: only the
/// choice of the second option does; the first option, any other index and
/// leaving the prompt all cancel.
pub open spec fn confirmed(choice: Option<usize>) -> bool {
    choice == Some(1usize)
}

/// Reads the answer of a multi-selection prompt over `items`.
pub fn interactive_multi_select(items: &Vec<String>, picked: Option<Vec<usize>>) -> (selection:
    Selection)
    requires
        picked matches Some(p) ==> picks_in_range(items.len() as nat, p@),
    ensures
        selection@ == selection_of(items.deep_view(), picks_view(picked)),
{
    match picked {
        None => Selection::Cancelled,
        Some(p) => {
            if p.len() == 0 {
                return Selection::EmptySelection;
            }
            let mut out: Vec<String> = Vec::new();
            let mut i: usize = 0;
            while i < p.len()
                invariant
                    i <= p.len(),
                    out.len() == i,
                    picks_in_range(items.len() as nat, p@),
                    forall|k: int| 0 <= k < i ==> (#[trigger] out[k])@ == items[p[k] as int]@,
                decreases p.len() - i,
            {
                out.push(items[p[i]].clone());
                i = i + 1;
            }
            assert(out.deep_view() =~= chosen(items.deep_view(), p@));
            Selection::Confirmed { items: out }
        },
    }
}

/// The notice for a selection that leads to no deletion.
pub fn selection_notice(selection: &Selection, item_type: &str) -> (out: Option<Line>)
    ensures
        match out {
            Some(l) => selection_notice_of(selection@, item_type@) == Some(l@),
            None => selection_notice_of(selection@, item_type@).is_none(),
        },
{
    match selection {
        Selection::Confirmed { .. } => None,
        Selection::EmptySelection => Some(
            Line { kind: LineKind::Notice, text: concat3("No ", item_type, " selected.") },
        ),
        Selection::Cancelled => Some(
            Line { kind: LineKind::Notice, text: "Selection cancelled.".to_owned() },
        ),
    }
}

/// The question that asks for confirmation before `count` resources are
/// deleted.
pub fn confirm_prompt(item_type: &str, count: usize, place: &str) -> (out: String)
    ensures
        out@ == confirm_prompt_text(item_type@, count as nat, place@),
{
    let mut out = "Delete these ".to_owned();
    out.append(decimal_string(count).as_str());
    out.append(" ");
    out.append(item_type);
    out.append(" from ");
    out.append(place);
    out.append("?");
    out
}

/// The two answers that a confirmation offers. The first, which is the one
/// selected at the start, cancels.
pub fn confirm_options() -> (out: Vec<String>)
    ensures
        out.deep_view() == seq!["No, cancel"@, "Yes, delete them!"@],
{
    let mut out: Vec<String> = Vec::new();
    out.push("No, cancel".to_owned());
    out.push("Yes, delete them!".to_owned());
    assert(out.deep_view() =~= seq!["No, cancel"@, "Yes, delete them!"@]);
    out
}

/// Reads the answer of a confirmation: the index of the chosen option, or
/// nothing where the operator left the prompt.
pub fn confirm_deletion(choice: Option<usize>) -> (proceed: bool)
    ensures
        proceed == confirmed(choice),
{
    match choice {
        Some(k) => k == 1,
        None => false,
    }
}

/// The notice that a deletion was not confirmed.
pub fn operation_cancelled() -> (out: Line)
    ensures
        out@ == line(LineKind::Notice, "Operation cancelled."@),
{
    Line { kind: LineKind::Notice, text: "Operation cancelled.".to_owned() }
}

} // verus!
