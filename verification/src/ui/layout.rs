//! The two list cursors and the texts that the panes show.

use crate::server::{
    breakpoints_view, clone_frames, frames_view, Breakpoint, BreakpointView, Callstack,
    CallstackView,
};
use vstd::prelude::*;

pub mod tree;

verus! {

/// An index as a natural number, or none.
pub open spec fn index_view(index: Option<usize>) -> Option<nat> {
    match index {
        Some(i) => Some(i as nat),
        None => None,
    }
}

/// Whether an index, if there is one, points into a list of `len` items.
pub open spec fn index_fits(len: nat, index: Option<nat>) -> bool {
    match index {
        Some(i) => i < len,
        None => true,
    }
}

/// The index after a step forward in a list of `len` items: the next one,
/// the first one after the last, the first one where none was selected. An
/// empty list keeps what it has.
pub open spec fn next_index(len: nat, selected: Option<nat>) -> Option<nat> {
    if len == 0 {
        selected
    } else {
        match selected {
            Some(i) => if i + 1 >= len {
                Some(0)
            } else {
                Some(i + 1)
            },
            None => Some(0),
        }
    }
}

/// The index after a step back in a list of `len` items: the one before,
/// the last one before the first, the first one where none was selected. An
/// empty list keeps what it has.
pub open spec fn previous_index(len: nat, selected: Option<nat>) -> Option<nat> {
    if len == 0 {
        selected
    } else {
        match selected {
            Some(i) => if i == 0 {
                Some((len - 1) as nat)
            } else {
                Some((i - 1) as nat)
            },
            None => Some(0),
        }
    }
}

/// An index that is kept while it points into a list of `len` items and
/// dropped when it does not.
pub open spec fn kept_index(len: nat, index: Option<nat>) -> Option<nat> {
    match index {
        Some(i) => if i < len {
            Some(i)
        } else {
            None
        },
        None => None,
    }
}

/// The index of the first item, if there is one; else what was selected.
pub open spec fn first_index(len: nat, selected: Option<nat>) -> Option<nat> {
    if len == 0 {
        selected
    } else {
        Some(0)
    }
}

/// The index after `times` steps forward.
pub open spec fn next_times(len: nat, selected: Option<nat>, times: nat) -> Option<nat>
    decreases times,
{
    if times == 0 {
        selected
    } else {
        next_index(len, next_times(len, selected, (times - 1) as nat))
    }
}

/// A step in a list that has items, forward or back, ends on an item of the
/// list, whether it started on one or with nothing selected.
pub proof fn lemma_step_stays_in_range(len: nat, selected: Option<nat>)
    requires
        len > 0,
        index_fits(len, selected),
    ensures
        next_index(len, selected) matches Some(i) && i < len,
        previous_index(len, selected) matches Some(i) && i < len,
{
}

/// A step in an empty list, forward or back, leaves the cursor as it was:
/// with nothing selected.
pub proof fn lemma_empty_list_keeps_none(selected: Option<nat>)
    requires
        index_fits(0, selected),
    ensures
        selected is None,
        next_index(0, selected) is None,
        previous_index(0, selected) is None,
{
}

/// A step back undoes a step forward, and a step forward a step back.
pub proof fn lemma_steps_undo_each_other(len: nat, start: nat)
    requires
        start < len,
    ensures
        previous_index(len, next_index(len, Some(start))) == Some(start),
        next_index(len, previous_index(len, Some(start))) == Some(start),
{
}

/// Up to `len` steps forward from `start`: the index grows by one per step
/// and goes on from the first item after the last.
pub proof fn lemma_next_times(len: nat, start: nat, times: nat)
    requires
        start < len,
        times <= len,
    ensures
        next_times(len, Some(start), times) == Some(
            if start + times < len {
                start + times
            } else {
                (start + times - len) as nat
            },
        ),
    decreases times,
{
    if times > 0 {
        lemma_next_times(len, start, (times - 1) as nat);
    }
}

/// As many steps forward as the list has items lead back to the start.
pub proof fn lemma_next_cycle(len: nat, start: nat)
    requires
        start < len,
    ensures
        next_times(len, Some(start), len) == Some(start),
{
    lemma_next_times(len, start, len);
}

fn step_forward(len: usize, selected: Option<usize>) -> (next: Option<usize>)
    requires
        index_fits(len as nat, index_view(selected)),
    ensures
        index_view(next) == next_index(len as nat, index_view(selected)),
        index_fits(len as nat, index_view(next)),
{
    if len == 0 {
        return selected;
    }
    match selected {
        Some(i) => if i >= len - 1 {
            Some(0)
        } else {
            Some(i + 1)
        },
        None => Some(0),
    }
}

fn step_back(len: usize, selected: Option<usize>) -> (previous: Option<usize>)
    requires
        index_fits(len as nat, index_view(selected)),
    ensures
        index_view(previous) == previous_index(len as nat, index_view(selected)),
        index_fits(len as nat, index_view(previous)),
{
    if len == 0 {
        return selected;
    }
    match selected {
        Some(i) => if i == 0 {
            Some(len - 1)
        } else {
            Some(i - 1)
        },
        None => Some(0),
    }
}

fn keep_index(len: usize, index: Option<usize>) -> (kept: Option<usize>)
    ensures
        index_view(kept) == kept_index(len as nat, index_view(index)),
        index_fits(len as nat, index_view(kept)),
{
    match index {
        Some(i) => if i < len {
            Some(i)
        } else {
            None
        },
        None => None,
    }
}

/// The list of received breakpoints with its cursor. The cursor and the
/// remembered anchor, where present, always point into the list.
#[derive(Debug)]
pub struct BreakpointList {
    selected: Option<usize>,
    anchor: Option<usize>,
    items: Vec<Breakpoint>,
}

/// What a `BreakpointList` holds.
pub ghost struct BreakpointListView {
    pub items: Seq<BreakpointView>,
    pub selected: Option<nat>,
    pub anchor: Option<nat>,
}

impl BreakpointListView {
    /// The cursor and the anchor point into the list.
    pub open spec fn wf(self) -> bool {
        index_fits(self.items.len(), self.selected) && index_fits(self.items.len(), self.anchor)
    }

    /// The selected breakpoint, if one is selected.
    pub open spec fn selected_item(self) -> Option<BreakpointView> {
        match self.selected {
            Some(i) => Some(self.items[i as int]),
            None => None,
        }
    }

    /// The payload of the selected breakpoint, or the placeholder text.
    pub open spec fn value(self) -> Seq<char> {
        match self.selected_item() {
            Some(breakpoint) => breakpoint.payload,
            None => "No variables"@,
        }
    }

    /// The call stack of the selected breakpoint; empty where none is selected.
    pub open spec fn callstack(self) -> Seq<CallstackView> {
        match self.selected_item() {
            Some(breakpoint) => breakpoint.callstack,
            None => Seq::empty(),
        }
    }

    /// The file of the selected breakpoint, or the placeholder text.
    pub open spec fn filepath(self) -> Seq<char> {
        match self.selected_item() {
            Some(breakpoint) => breakpoint.filepath,
            None => "No data"@,
        }
    }
}

impl View for BreakpointList {
    type V = BreakpointListView;

    closed spec fn view(&self) -> BreakpointListView {
        BreakpointListView {
            items: breakpoints_view(self.items@),
            selected: index_view(self.selected),
            anchor: index_view(self.anchor),
        }
    }
}

impl BreakpointList {
    #[verifier::type_invariant]
    spec fn inv(self) -> bool {
        index_fits(self.items@.len(), index_view(self.selected)) && index_fits(
            self.items@.len(),
            index_view(self.anchor),
        )
    }

    /// A list over `items` with nothing selected and nothing remembered.
    pub fn with_items(items: Vec<Breakpoint>) -> (list: BreakpointList)
        ensures
            list@ == (BreakpointListView {
                items: breakpoints_view(items@),
                selected: None,
                anchor: None,
            }),
    {
        BreakpointList { selected: None, anchor: None, items }
    }

    /// The breakpoints of the list.
    pub fn items(&self) -> (items: &Vec<Breakpoint>)
        ensures
            breakpoints_view(items@) == self@.items,
            self@.wf(),
    {
        proof {
            use_type_invariant(self);
        }
        &self.items
    }

    /// The index of the selected breakpoint.
    pub fn selected(&self) -> (selected: Option<usize>)
        ensures
            index_view(selected) == self@.selected,
            self@.wf(),
    {
        proof {
            use_type_invariant(self);
        }
        self.selected
    }

    /// The index that was remembered when the view last moved to the call stack.
    pub fn anchor(&self) -> (anchor: Option<usize>)
        ensures
            index_view(anchor) == self@.anchor,
            self@.wf(),
    {
        proof {
            use_type_invariant(self);
        }
        self.anchor
    }

    /// Replaces the breakpoints. The cursor and the anchor keep their
    /// positions where these still exist, and are dropped where they do not.
    pub fn set_items(&mut self, items: Vec<Breakpoint>)
        ensures
            final(self)@ == (BreakpointListView {
                items: breakpoints_view(items@),
                selected: kept_index(items@.len(), old(self)@.selected),
                anchor: kept_index(items@.len(), old(self)@.anchor),
            }),
            final(self)@.wf(),
    {
        let selected = keep_index(items.len(), self.selected);
        let anchor = keep_index(items.len(), self.anchor);
        *self = BreakpointList { selected, anchor, items };
    }

    /// The file of the selected breakpoint; "No data" where none is selected.
    pub fn get_selected_filepath(&mut self) -> (filepath: String)
        ensures
            filepath@ == old(self)@.filepath(),
            final(self)@ == old(self)@,
    {
        proof {
            use_type_invariant(&*self);
        }
        match self.selected {
            Some(i) => self.items[i].filepath.clone(),
            None => String::from_str("No data"),
        }
    }

    /// Moves the cursor one breakpoint forward, from the last to the first.
    pub fn next(&mut self)
        ensures
            final(self)@ == (BreakpointListView {
                selected: next_index(old(self)@.items.len(), old(self)@.selected),
                ..old(self)@
            }),
            final(self)@.wf(),
    {
        proof {
            use_type_invariant(&*self);
        }
        self.selected = step_forward(self.items.len(), self.selected);
    }

    /// Moves the cursor one breakpoint back, from the first to the last.
    pub fn previous(&mut self)
        ensures
            final(self)@ == (BreakpointListView {
                selected: previous_index(old(self)@.items.len(), old(self)@.selected),
                ..old(self)@
            }),
            final(self)@.wf(),
    {
        proof {
            use_type_invariant(&*self);
        }
        self.selected = step_back(self.items.len(), self.selected);
    }

    /// The selected breakpoint, if one is selected.
    pub fn get_selected_breakpoint(&mut self) -> (breakpoint: Option<&Breakpoint>)
        ensures
            match breakpoint {
                Some(found) => old(self)@.selected_item() == Some(found@),
                None => old(self)@.selected_item() is None,
            },
            final(self)@ == old(self)@,
    {
        proof {
            use_type_invariant(&*self);
        }
        match self.selected {
            Some(i) => Some(&self.items[i]),
            None => None,
        }
    }

    /// The payload of the selected breakpoint; "No variables" where none is
    /// selected.
    pub fn get_value(&mut self) -> (payload: String)
        ensures
            payload@ == old(self)@.value(),
            final(self)@ == old(self)@,
    {
        proof {
            use_type_invariant(&*self);
        }
        match self.selected {
            Some(i) => self.items[i].payload.clone(),
            None => String::from_str("No variables"),
        }
    }

    /// The call stack of the selected breakpoint; empty where none is selected.
    pub fn get_callstack(&mut self) -> (frames: Vec<Callstack>)
        ensures
            frames_view(frames@) == old(self)@.callstack(),
            final(self)@ == old(self)@,
    {
        proof {
            use_type_invariant(&*self);
        }
        match self.selected {
            Some(i) => clone_frames(&self.items[i].callstack),
            None => {
                let frames: Vec<Callstack> = Vec::new();
                assert(frames_view(frames@) =~= Seq::empty());
                frames
            },
        }
    }

    /// Clears the cursor.
    pub fn unselect(&mut self)
        ensures
            final(self)@ == (BreakpointListView { selected: None, ..old(self)@ }),
            final(self)@.wf(),
    {
        proof {
            use_type_invariant(&*self);
        }
        self.selected = None;
    }

    /// Puts the cursor on the first breakpoint. An empty list keeps what it has.
    pub fn select_first(&mut self)
        ensures
            final(self)@ == (BreakpointListView {
                selected: first_index(old(self)@.items.len(), old(self)@.selected),
                ..old(self)@
            }),
            final(self)@.wf(),
    {
        proof {
            use_type_invariant(&*self);
        }
        if self.items.len() == 0 {
            return ;
        }
        self.selected = Some(0);
    }

    /// Remembers the cursor's position as the anchor.
    pub fn remember_selected(&mut self)
        ensures
            final(self)@ == (BreakpointListView {
                anchor: old(self)@.selected,
                ..old(self)@
            }),
            final(self)@.wf(),
    {
        proof {
            use_type_invariant(&*self);
        }
        self.anchor = self.selected;
    }

    /// Puts the cursor back on the anchor.
    pub fn restore_selected(&mut self)
        ensures
            final(self)@ == (BreakpointListView {
                selected: old(self)@.anchor,
                ..old(self)@
            }),
            final(self)@.wf(),
    {
        proof {
            use_type_invariant(&*self);
        }
        self.selected = self.anchor;
    }
}

/// The call stack of the selected breakpoint with its cursor. The cursor,
/// where present, always points into the list.
#[derive(Debug)]
pub struct CallstackList {
    selected: Option<usize>,
    items: Vec<Callstack>,
}

/// What a `CallstackList` holds.
pub ghost struct CallstackListView {
    pub items: Seq<CallstackView>,
    pub selected: Option<nat>,
}

impl CallstackListView {
    /// The cursor points into the list.
    pub open spec fn wf(self) -> bool {
        index_fits(self.items.len(), self.selected)
    }

    /// The selected frame, if one is selected.
    pub open spec fn selected_item(self) -> Option<CallstackView> {
        match self.selected {
            Some(i) => Some(self.items[i as int]),
            None => None,
        }
    }

    /// The file of the selected frame, or the placeholder text.
    pub open spec fn filepath(self) -> Seq<char> {
        match self.selected_item() {
            Some(frame) => frame.filepath,
            None => "No data"@,
        }
    }
}

impl View for CallstackList {
    type V = CallstackListView;

    closed spec fn view(&self) -> CallstackListView {
        CallstackListView {
            items: frames_view(self.items@),
            selected: index_view(self.selected),
        }
    }
}

impl CallstackList {
    #[verifier::type_invariant]
    spec fn inv(self) -> bool {
        index_fits(self.items@.len(), index_view(self.selected))
    }

    /// A list over `items` with nothing selected.
    pub fn with_items(items: Vec<Callstack>) -> (list: CallstackList)
        ensures
            list@ == (CallstackListView { items: frames_view(items@), selected: None }),
    {
        CallstackList { selected: None, items }
    }

    /// The frames of the list.
    pub fn items(&self) -> (items: &Vec<Callstack>)
        ensures
            frames_view(items@) == self@.items,
            self@.wf(),
    {
        proof {
            use_type_invariant(self);
        }
        &self.items
    }

    /// The index of the selected frame.
    pub fn selected(&self) -> (selected: Option<usize>)
        ensures
            index_view(selected) == self@.selected,
            self@.wf(),
    {
        proof {
            use_type_invariant(self);
        }
        self.selected
    }

    /// Replaces the frames. The cursor keeps its position where that still
    /// exists, and is dropped where it does not.
    pub fn set_items(&mut self, items: Vec<Callstack>)
        ensures
            final(self)@ == (CallstackListView {
                items: frames_view(items@),
                selected: kept_index(items@.len(), old(self)@.selected),
            }),
            final(self)@.wf(),
    {
        let selected = keep_index(items.len(), self.selected);
        *self = CallstackList { selected, items };
    }

    /// The selected frame, if one is selected.
    pub fn get_selected_callstack(&mut self) -> (frame: Option<&Callstack>)
        ensures
            match frame {
                Some(found) => old(self)@.selected_item() == Some(found@),
                None => old(self)@.selected_item() is None,
            },
            final(self)@ == old(self)@,
    {
        proof {
            use_type_invariant(&*self);
        }
        match self.selected {
            Some(i) => Some(&self.items[i]),
            None => None,
        }
    }

    /// Moves the cursor one frame forward, from the last to the first.
    pub fn next(&mut self)
        ensures
            final(self)@ == (CallstackListView {
                selected: next_index(old(self)@.items.len(), old(self)@.selected),
                ..old(self)@
            }),
            final(self)@.wf(),
    {
        proof {
            use_type_invariant(&*self);
        }
        self.selected = step_forward(self.items.len(), self.selected);
    }

    /// Moves the cursor one frame back, from the first to the last.
    pub fn previous(&mut self)
        ensures
            final(self)@ == (CallstackListView {
                selected: previous_index(old(self)@.items.len(), old(self)@.selected),
                ..old(self)@
            }),
            final(self)@.wf(),
    {
        proof {
            use_type_invariant(&*self);
        }
        self.selected = step_back(self.items.len(), self.selected);
    }

    /// Clears the cursor.
    pub fn unselect(&mut self)
        ensures
            final(self)@ == (CallstackListView { selected: None, ..old(self)@ }),
            final(self)@.wf(),
    {
        proof {
            use_type_invariant(&*self);
        }
        self.selected = None;
    }

    /// The file of the selected frame; "No data" where none is selected.
    pub fn get_selected_filepath(&mut self) -> (filepath: String)
        ensures
            filepath@ == old(self)@.filepath(),
            final(self)@ == old(self)@,
    {
        proof {
            use_type_invariant(&*self);
        }
        match self.selected {
            Some(i) => self.items[i].filepath.clone(),
            None => String::from_str("No data"),
        }
    }

    /// Puts the cursor on the first frame. An empty list keeps what it has.
    pub fn select_first(&mut self)
        ensures
            final(self)@ == (CallstackListView {
                selected: first_index(old(self)@.items.len(), old(self)@.selected),
                ..old(self)@
            }),
            final(self)@.wf(),
    {
        proof {
            use_type_invariant(&*self);
        }
        if self.items.len() == 0 {
            return ;
        }
        self.selected = Some(0);
    }
}

/// The text of a list entry: the line in square brackets, then the file.
pub open spec fn title_of(line: Seq<char>, filepath: Seq<char>) -> Seq<char> {
    "["@ + line + "] "@ + filepath
}

/// Builds the text of a list entry.
pub fn list_title(line: &str, filepath: &str) -> (title: String)
    ensures
        title@ == title_of(line@, filepath@),
{
    String::from_str("[").concat(line).concat("] ").concat(filepath)
}

/// The three shares, in percent, into which one side of the screen is cut
/// for a centred popup that takes `percent` of it: a margin, the popup, and
/// the same margin again.
pub fn popup_constraints(percent: u16) -> (shares: (u16, u16, u16))
    requires
        percent <= 100,
    ensures
        shares.0 == (100 - percent) / 2,
        shares.1 == percent,
        shares.2 == shares.0,
        shares.0 + shares.1 + shares.2 <= 100,
{
    let margin = (100 - percent) / 2;
    (margin, percent, margin)
}

} // verus!
