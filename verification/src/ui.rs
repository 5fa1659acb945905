//! The state of one interactive session and the pieces it is made of.

use crate::config::Config;
use crate::server::{breakpoints_view, frames_view, Breakpoint, BreakpointView, Callstack};
use crate::ui::keymap::{InputMode, ListMode};
use crate::ui::layout::tree::{
    lemma_nodes_view, lemma_shapes_of, nodes_view, shape_of, shapes_of, TreeModel, TreeNode,
};
use crate::ui::layout::{
    kept_index, BreakpointList, BreakpointListView, CallstackList, CallstackListView,
};
use crate::ui::tree_cursor::{
    item_shape, items_shape, opened_with, parent_path, selected_after_down, selected_after_up,
    selected_last, tree_opened, tree_selected,
};
use tui_tree_widget::{TreeItem, TreeState};
use vstd::prelude::*;

pub mod keymap;
pub mod layout;
pub mod tree_cursor;

verus! {

/// The lines of a text, each taken by its view.
pub open spec fn lines_view(lines: Seq<String>) -> Seq<Seq<char>> {
    lines.map_values(|line: String| line@)
}

/// Copies a list of lines.
pub fn clone_lines(lines: &Vec<String>) -> (copy: Vec<String>)
    ensures
        lines_view(copy@) == lines_view(lines@),
{
    let mut copy: Vec<String> = Vec::new();
    let mut i: usize = 0;
    while i < lines.len()
        invariant
            i <= lines.len(),
            copy.len() == i,
            forall|k: int| 0 <= k < i ==> copy@[k]@ == lines@[k]@,
        decreases lines.len() - i,
    {
        copy.push(lines[i].clone());
        i += 1;
    }
    assert(lines_view(copy@) =~= lines_view(lines@));
    copy
}

/// An overlay that is shown and hidden by explicit commands only.
#[derive(Debug)]
pub struct Popup {
    pub show: bool,
    pub text: Vec<String>,
}

/// What a `Popup` holds.
pub ghost struct PopupView {
    pub show: bool,
    pub text: Seq<Seq<char>>,
}

impl View for Popup {
    type V = PopupView;

    open spec fn view(&self) -> PopupView {
        PopupView { show: self.show, text: lines_view(self.text@) }
    }
}

impl Popup {
    /// A hidden popup without text.
    pub fn new() -> (popup: Popup)
        ensures
            popup@ == (PopupView { show: false, text: Seq::empty() }),
    {
        let popup = Popup { show: false, text: Vec::new() };
        assert(lines_view(popup.text@) =~= Seq::empty());
        popup
    }

    pub fn is_active(&self) -> (active: bool)
        ensures
            active == self@.show,
    {
        self.show
    }

    /// Makes the popup visible; its text stays.
    pub fn show(&mut self)
        ensures
            final(self)@ == (PopupView { show: true, text: old(self)@.text }),
    {
        self.show = true;
    }

    /// Hides the popup and drops its text.
    pub fn dismiss(&mut self)
        ensures
            final(self)@ == (PopupView { show: false, text: Seq::empty() }),
    {
        self.show = false;
        self.set_text(Vec::new());
        assert(lines_view(self.text@) =~= Seq::empty());
    }

    /// Replaces the text; visibility stays.
    pub fn set_text(&mut self, text: Vec<String>)
        ensures
            final(self)@ == (PopupView { show: old(self)@.show, text: lines_view(text@) }),
    {
        self.text = text;
    }

    pub fn get_text(&self) -> (text: Vec<String>)
        ensures
            lines_view(text@) == self@.text,
    {
        clone_lines(&self.text)
    }
}

/// The one-line status text at the bottom of the screen.
#[derive(Debug)]
pub struct StatusBar {
    pub text: String,
}

impl View for StatusBar {
    type V = Seq<char>;

    open spec fn view(&self) -> Seq<char> {
        self.text@
    }
}

impl StatusBar {
    /// A status bar with an empty text.
    pub fn new() -> (bar: StatusBar)
        ensures
            bar@ == Seq::<char>::empty(),
    {
        StatusBar { text: String::new() }
    }

    pub fn set_status(&mut self, text: String)
        ensures
            final(self)@ == text@,
    {
        self.text = text;
    }

    pub fn get_status(&mut self) -> (text: String)
        ensures
            text@ == old(self)@,
            final(self)@ == old(self)@,
    {
        self.text.clone()
    }
}

/// Builds the widget's item for a node, children first.
pub fn tree_item(node: &TreeNode) -> (item: TreeItem<'static>)
    ensures
        item_shape(item) == shape_of(node@),
    decreases node,
{
    let mut children: Vec<TreeItem<'static>> = Vec::new();
    let mut i: usize = 0;
    while i < node.children.len()
        invariant
            i <= node.children.len(),
            children.len() == i,
            forall|k: int|
                0 <= k < i ==> item_shape(#[trigger] children@[k]) == shape_of(node.children@[k]@),
        decreases node.children.len() - i,
    {
        children.push(tree_item(&node.children[i]));
        i += 1;
    }
    proof {
        lemma_nodes_view(node.children@);
        lemma_shapes_of(nodes_view(node.children@));
        assert(items_shape(children@) =~= shapes_of(nodes_view(node.children@)));
    }
    tree_cursor::new_item(node.label.as_str(), children)
}

/// Builds the widget's items for a list of nodes.
pub fn tree_items(nodes: &Vec<TreeNode>) -> (items: Vec<TreeItem<'static>>)
    ensures
        items_shape(items@) == shapes_of(nodes_view(nodes@)),
        items@.len() == nodes@.len(),
{
    let mut items: Vec<TreeItem<'static>> = Vec::new();
    let mut i: usize = 0;
    while i < nodes.len()
        invariant
            i <= nodes.len(),
            items.len() == i,
            forall|k: int| 0 <= k < i ==> item_shape(#[trigger] items@[k]) == shape_of(nodes@[k]@),
        decreases nodes.len() - i,
    {
        items.push(tree_item(&nodes[i]));
        i += 1;
    }
    proof {
        lemma_nodes_view(nodes@);
        lemma_shapes_of(nodes_view(nodes@));
        assert(items_shape(items@) =~= shapes_of(nodes_view(nodes@)));
    }
    items
}

/// The inspection tree with its cursor.
#[derive(Debug)]
pub struct StatefulTree {
    pub state: TreeState,
    pub items: Vec<TreeNode>,
}

/// What a `StatefulTree` holds: the nodes, the path of the selected node
/// (empty where none is selected) and the paths of the opened nodes.
pub ghost struct StatefulTreeView {
    pub items: Seq<TreeModel>,
    pub selected: Seq<usize>,
    pub opened: Set<Seq<usize>>,
}

impl StatefulTreeView {
    /// The tree after a step down: unchanged where the tree is empty.
    pub open spec fn down(self) -> StatefulTreeView {
        if self.items.len() == 0 {
            self
        } else {
            StatefulTreeView {
                selected: selected_after_down(self.selected, self.opened, shapes_of(self.items)),
                ..self
            }
        }
    }

    /// The tree after a step up: unchanged where the tree is empty.
    pub open spec fn up(self) -> StatefulTreeView {
        if self.items.len() == 0 {
            self
        } else {
            StatefulTreeView {
                selected: selected_after_up(self.selected, self.opened, shapes_of(self.items)),
                ..self
            }
        }
    }

    /// The tree after a step left: the selected node is closed if it was
    /// opened, else its parent is selected.
    pub open spec fn left(self) -> StatefulTreeView {
        if self.opened.contains(self.selected) {
            StatefulTreeView { opened: self.opened.remove(self.selected), ..self }
        } else {
            StatefulTreeView { selected: parent_path(self.selected), ..self }
        }
    }

    /// The tree after a step right: the selected node is opened.
    pub open spec fn right(self) -> StatefulTreeView {
        StatefulTreeView { opened: opened_with(self.opened, self.selected), ..self }
    }

    /// The tree after the selected node was opened if closed, closed if opened.
    pub open spec fn toggle(self) -> StatefulTreeView {
        if self.opened.contains(self.selected) {
            StatefulTreeView { opened: self.opened.remove(self.selected), ..self }
        } else {
            StatefulTreeView { opened: opened_with(self.opened, self.selected), ..self }
        }
    }
}

impl View for StatefulTree {
    type V = StatefulTreeView;

    open spec fn view(&self) -> StatefulTreeView {
        StatefulTreeView {
            items: nodes_view(self.items@),
            selected: tree_selected(self.state),
            opened: tree_opened(self.state),
        }
    }
}

impl StatefulTree {
    /// An empty tree with nothing selected and nothing opened.
    pub fn new() -> (tree: Self)
        ensures
            tree@ == (StatefulTreeView {
                items: Seq::empty(),
                selected: Seq::empty(),
                opened: Set::empty(),
            }),
    {
        let items: Vec<TreeNode> = Vec::new();
        assert(nodes_view(items@) =~= Seq::empty());
        Self::with_items(items)
    }

    /// A tree over `items` with nothing selected and nothing opened.
    pub fn with_items(items: Vec<TreeNode>) -> (tree: Self)
        ensures
            tree@ == (StatefulTreeView {
                items: nodes_view(items@),
                selected: Seq::empty(),
                opened: Set::empty(),
            }),
    {
        Self { state: tree_cursor::new_state(), items }
    }

    /// Selects the first root node.
    pub fn first(&mut self)
        ensures
            final(self)@ == (StatefulTreeView { selected: seq![0usize], ..old(self)@ }),
    {
        tree_cursor::select_first(&mut self.state);
    }

    /// Selects the last visible node.
    pub fn last(&mut self)
        ensures
            final(self)@ == (StatefulTreeView {
                selected: selected_last(old(self)@.opened, shapes_of(old(self)@.items)),
                ..old(self)@
            }),
    {
        let items = tree_items(&self.items);
        tree_cursor::select_last(&mut self.state, &items);
    }

    /// Moves the selection one visible node down. An empty tree stays as it is.
    pub fn down(&mut self)
        ensures
            final(self)@ == old(self)@.down(),
    {
        if self.items.len() > 0 {
            let items = tree_items(&self.items);
            tree_cursor::key_down(&mut self.state, &items);
        }
    }

    /// Moves the selection one visible node up. An empty tree stays as it is.
    pub fn up(&mut self)
        ensures
            final(self)@ == old(self)@.up(),
    {
        if self.items.len() > 0 {
            let items = tree_items(&self.items);
            tree_cursor::key_up(&mut self.state, &items);
        }
    }

    /// Closes the selected node if it is opened, else selects its parent.
    pub fn left(&mut self)
        ensures
            final(self)@ == old(self)@.left(),
    {
        tree_cursor::key_left(&mut self.state);
    }

    /// Opens the selected node.
    pub fn right(&mut self)
        ensures
            final(self)@ == old(self)@.right(),
    {
        tree_cursor::key_right(&mut self.state);
    }

    /// Opens the selected node if it is closed, closes it if it is opened.
    pub fn toggle(&mut self)
        ensures
            final(self)@ == old(self)@.toggle(),
    {
        tree_cursor::toggle_selected(&mut self.state);
    }
}

/// The two lists of a session.
#[derive(Debug)]
pub struct ListState {
    pub breakpoint: BreakpointList,
    pub callstack: CallstackList,
}

impl ListState {
    /// Two empty lists with nothing selected.
    pub fn new() -> (lists: ListState)
        ensures
            lists.breakpoint@ == (BreakpointListView {
                items: Seq::empty(),
                selected: None,
                anchor: None,
            }),
            lists.callstack@ == (CallstackListView { items: Seq::empty(), selected: None }),
    {
        let breakpoints: Vec<Breakpoint> = Vec::new();
        let frames: Vec<Callstack> = Vec::new();
        assert(breakpoints_view(breakpoints@) =~= Seq::empty());
        assert(frames_view(frames@) =~= Seq::empty());
        ListState {
            breakpoint: BreakpointList::with_items(breakpoints),
            callstack: CallstackList::with_items(frames),
        }
    }
}

/// The state of one interactive session. Times are milliseconds on a clock
/// of the caller's choice that never runs backwards. The leader timer holds
/// the time of the last press of the leader key, if there was one.
#[derive(Debug)]
pub struct UiState {
    pub list_state: ListState,
    pub list_mode: ListMode,
    pub tree_state: StatefulTree,
    pub input_mode: InputMode,
    pub popup: Popup,
    pub status_bar: StatusBar,
    pub leader_tick_time: Option<u64>,
    pub config: Config,
}

/// What a `UiState` holds.
pub ghost struct UiStateView {
    pub breakpoint: BreakpointListView,
    pub callstack: CallstackListView,
    pub list_mode: ListMode,
    pub tree: StatefulTreeView,
    pub input_mode: InputMode,
    pub popup: PopupView,
    pub status: Seq<char>,
    pub leader_tick_time: Option<u64>,
    pub leader_key: char,
    pub port: u16,
}

impl View for UiState {
    type V = UiStateView;

    open spec fn view(&self) -> UiStateView {
        UiStateView {
            breakpoint: self.list_state.breakpoint@,
            callstack: self.list_state.callstack@,
            list_mode: self.list_mode,
            tree: self.tree_state@,
            input_mode: self.input_mode,
            popup: self.popup@,
            status: self.status_bar@,
            leader_tick_time: self.leader_tick_time,
            leader_key: self.config.keymap.leader_key,
            port: self.config.port,
        }
    }
}

/// The state in which a session with the given settings starts.
pub open spec fn initial_view(leader_key: char, port: u16) -> UiStateView {
    UiStateView {
        breakpoint: BreakpointListView { items: Seq::empty(), selected: None, anchor: None },
        callstack: CallstackListView { items: Seq::empty(), selected: None },
        list_mode: ListMode::Breakpoint,
        tree: StatefulTreeView { items: Seq::empty(), selected: Seq::empty(), opened: Set::empty() },
        input_mode: InputMode::Normal,
        popup: PopupView { show: false, text: Seq::empty() },
        status: Seq::empty(),
        leader_tick_time: None,
        leader_key,
        port,
    }
}

/// The session after a new snapshot of the received breakpoints was taken:
/// the cursor and the anchor keep their positions where these still exist,
/// and nothing else changes.
pub open spec fn refreshed(s: UiStateView, snapshot: Seq<BreakpointView>) -> UiStateView {
    UiStateView {
        breakpoint: BreakpointListView {
            items: snapshot,
            selected: kept_index(snapshot.len(), s.breakpoint.selected),
            anchor: kept_index(snapshot.len(), s.breakpoint.anchor),
        },
        ..s
    }
}

impl UiState {
    /// A new session: empty lists, an empty tree, Normal mode, the
    /// Breakpoint list active, no popup, an empty status line, and a leader
    /// key that was never pressed.
    pub fn new(config: Config) -> (state: UiState)
        ensures
            state@ == initial_view(config.keymap.leader_key, config.port),
    {
        UiState {
            list_state: ListState::new(),
            tree_state: StatefulTree::new(),
            popup: Popup::new(),
            status_bar: StatusBar::new(),
            input_mode: InputMode::Normal,
            leader_tick_time: None,
            list_mode: ListMode::Breakpoint,
            config,
        }
    }

    /// Takes a new snapshot of the received breakpoints.
    pub fn refresh(&mut self, snapshot: Vec<Breakpoint>)
        ensures
            final(self)@ == refreshed(old(self)@, breakpoints_view(snapshot@)),
    {
        self.list_state.breakpoint.set_items(snapshot);
    }
}

} // verus!
