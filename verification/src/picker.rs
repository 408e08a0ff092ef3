//! Choosing one window among several: the picker interface and the
//! decisions behind its key handling and rows.

use vstd::prelude::*;
use vstd::string::StringExecFns;

use crate::backend::WindowInfo;

verus! {

/// Lets the user choose one of several windows.
pub trait Picker {
    /// What this picker records of the choices it has been offered, as
    /// far as it keeps such a record (nothing by default).
    open spec fn pick_history(&self) -> Seq<Seq<char>> {
        Seq::empty()
    }

    /// Offering `windows` once, from this state, can answer `choice` and
    /// leave the record `after`. A picker that says nothing more leaves
    /// every answer and every record possible.
    open spec fn picks(&self, windows: Seq<WindowInfo>, choice: Option<String>, after: Seq<Seq<char>>) -> bool {
        true
    }

    /// The id of the chosen window, or `None` when the choice was cancelled.
    fn pick(&mut self, windows: &[WindowInfo]) -> (choice: Option<String>)
        ensures
            old(self).picks(windows@, choice, final(self).pick_history()),
    ;
}

/// The keys the picker reacts to; every other key is `Other`.
#[derive(Debug, Clone, Copy, PartialEq, Eq)]
pub enum PickerKey {
    Up,
    Down,
    Enter,
    Esc,
    Other,
}

/// What one key press does to the picker.
#[derive(Debug, Clone, PartialEq, Eq)]
pub enum PickerStep {
    /// Move the selection to this row.
    Move(usize),
    /// Close the picker with this result (a window id, or `None` when cancelled).
    Exit(Option<String>),
    /// Nothing changes.
    Ignore,
}

/// The row selected after pressing Down on row `selected` of `len` rows:
/// one further, but never past the last row.
pub open spec fn row_after_down(selected: nat, len: nat) -> nat {
    let last: nat = if len == 0 { 0 } else { (len - 1) as nat };
    if selected + 1 <= last { selected + 1 } else { last }
}

/// The row selected after pressing Up on row `selected`: one back, but never
/// before the first row.
pub open spec fn row_after_up(selected: nat) -> nat {
    if selected == 0 { 0 } else { (selected - 1) as nat }
}

/// Down moves the selection to the next row when there is one, and leaves
/// it on the last row otherwise; Up moves it to the previous row when there
/// is one, and leaves it on the first row otherwise.
pub proof fn law_up_down_move_by_one_row(selected: nat, len: nat)
    ensures
        selected + 1 < len ==> row_after_down(selected, len) == selected + 1,
        selected + 1 >= len && len > 0 ==> row_after_down(selected, len) == len - 1,
        len == 0 ==> row_after_down(selected, len) == 0,
        selected > 0 ==> row_after_up(selected) == selected - 1,
        selected == 0 ==> row_after_up(selected) == 0,
{
}

/// Up and Down keep the selection on a row: from any row, the row after
/// either key is a row again, and Down on the last row stays there.
pub proof fn law_selection_stays_on_a_row(selected: nat, len: nat)
    requires
        selected < len,
    ensures
        row_after_down(selected, len) < len,
        row_after_up(selected) < len,
        row_after_down((len - 1) as nat, len) == len - 1,
{
}

/// The last row of `len` rows (0 when there are none).
pub open spec fn last_row(len: nat) -> nat {
    if len == 0 { 0 } else { (len - 1) as nat }
}

/// The row selected after the keys `keys`, starting from row `selected` of
/// `len` rows: Down and Up move as `picker_step` does, other keys keep it.
pub open spec fn row_after_keys(selected: nat, len: nat, keys: Seq<PickerKey>) -> nat
    decreases keys.len(),
{
    if keys.len() == 0 {
        selected
    } else {
        let next = match keys[0] {
            PickerKey::Down => row_after_down(selected, len),
            PickerKey::Up => row_after_up(selected),
            _ => selected,
        };
        row_after_keys(next, len, keys.drop_first())
    }
}

/// Whatever keys are pressed, a selection that starts on a row (the first,
/// when there are no rows) stays on a row.
pub proof fn law_keys_keep_selection_on_a_row(selected: nat, len: nat, keys: Seq<PickerKey>)
    requires
        selected <= last_row(len),
    ensures
        row_after_keys(selected, len, keys) <= last_row(len),
    decreases keys.len(),
{
    if keys.len() > 0 {
        let next = match keys[0] {
            PickerKey::Down => row_after_down(selected, len),
            PickerKey::Up => row_after_up(selected),
            _ => selected,
        };
        law_keys_keep_selection_on_a_row(next, len, keys.drop_first());
    }
}

/// Decides what pressing `key` does while row `selected` of `windows` is
/// selected.
pub fn picker_step(selected: usize, windows: &[WindowInfo], key: PickerKey) -> (r: PickerStep)
    ensures
        key is Down ==> r == PickerStep::Move(
            row_after_down(selected as nat, windows@.len()) as usize,
        ),
        key is Down && selected + 1 < windows@.len() ==> r == PickerStep::Move((selected + 1) as usize),
        key is Down && selected + 1 >= windows@.len() && windows@.len() > 0 ==> r == PickerStep::Move(
            (windows@.len() - 1) as usize,
        ),
        key is Up && selected > 0 ==> r == PickerStep::Move((selected - 1) as usize),
        key is Up && selected == 0 ==> r == PickerStep::Move(0),
        key is Up ==> r == PickerStep::Move(row_after_up(selected as nat) as usize),
        key is Enter ==> (r matches PickerStep::Exit(choice) && (if selected < windows@.len() {
            choice matches Some(id) && id@ == windows@[selected as int].id@
        } else {
            choice is None
        })),
        key is Esc ==> r == PickerStep::Exit(None),
        key is Other ==> r is Ignore,
{
    let len = windows.len();
    match key {
        PickerKey::Down => {
            let last = if len == 0 { 0 } else { len - 1 };
            if selected < last {
                PickerStep::Move(selected + 1)
            } else {
                PickerStep::Move(last)
            }
        },
        PickerKey::Up => {
            if selected == 0 {
                PickerStep::Move(0)
            } else {
                PickerStep::Move(selected - 1)
            }
        },
        PickerKey::Enter => {
            if selected < len {
                PickerStep::Exit(Some(windows[selected].id.clone()))
            } else {
                PickerStep::Exit(None)
            }
        },
        PickerKey::Esc => PickerStep::Exit(None),
        PickerKey::Other => PickerStep::Ignore,
    }
}

/// The text of a picker row: a marker (">" for the selected row, " " for
/// the others), the title and the subtext.
pub open spec fn picker_row_text(w: WindowInfo, is_selected: bool) -> Seq<char> {
    (if is_selected { ">"@ } else { " "@ }) + " "@ + w.title@ + "  "@ + w.subtext@
}

/// Renders one row of the picker.
pub fn picker_row(w: &WindowInfo, is_selected: bool) -> (row: String)
    ensures
        row@ == picker_row_text(*w, is_selected),
        row@ == (if is_selected { ">"@ } else { " "@ }) + " "@ + w.title@ + "  "@ + w.subtext@,
{
    let mut row = if is_selected {
        String::from_str(">")
    } else {
        String::from_str(" ")
    };
    row.append(" ");
    row.append(w.title.as_str());
    row.append("  ");
    row.append(w.subtext.as_str());
    row
}

} // verus!
