//! The tree cursor and the tree items of `tui_tree_widget`, behind contracts.
//!
//! A `TreeState` is known here by two things: the path of the selected node
//! (the index of a root node, then of a child, and so on; empty where nothing
//! is selected) and the set of the paths of the opened nodes. A `TreeItem` is
//! known by its shape alone: how many children it has, and their shapes. What
//! the widget makes of a label is not said here. Nothing in this file is
//! proved: each contract says what the source of `tui_tree_widget` shows.

use crate::ui::layout::tree::TreeShape;
use tui_tree_widget::{TreeItem, TreeState};
use vstd::prelude::*;

verus! {

/// `tui_tree_widget::TreeState`.
#[verifier::external_type_specification]
#[verifier::external_body]
pub struct ExTreeState(TreeState);

/// `tui_tree_widget::TreeItem`.
#[verifier::external_type_specification]
#[verifier::external_body]
pub struct ExTreeItem<'a>(TreeItem<'a>);

/// The path of the node that a `TreeState` has selected.
pub uninterp spec fn tree_selected(state: TreeState) -> Seq<usize>;

/// The paths of the nodes that a `TreeState` has opened.
pub uninterp spec fn tree_opened(state: TreeState) -> Set<Seq<usize>>;

/// The shape of the tree that a `TreeItem` holds: its children, one for one.
pub uninterp spec fn item_shape(item: TreeItem<'static>) -> TreeShape;

/// The path that `TreeState::key_down` selects.
pub uninterp spec fn selected_after_down(
    selected: Seq<usize>,
    opened: Set<Seq<usize>>,
    items: Seq<TreeShape>,
) -> Seq<usize>;

/// The path that `TreeState::key_up` selects.
pub uninterp spec fn selected_after_up(
    selected: Seq<usize>,
    opened: Set<Seq<usize>>,
    items: Seq<TreeShape>,
) -> Seq<usize>;

/// The path that `TreeState::select_last` selects.
pub uninterp spec fn selected_last(opened: Set<Seq<usize>>, items: Seq<TreeShape>) -> Seq<usize>;

/// A list of items, each taken by its shape.
pub open spec fn items_shape(items: Seq<TreeItem<'static>>) -> Seq<TreeShape> {
    items.map_values(|item: TreeItem<'static>| item_shape(item))
}

/// A path without its last index; the empty path stays empty.
pub open spec fn parent_path(path: Seq<usize>) -> Seq<usize> {
    if path.len() == 0 {
        path
    } else {
        path.drop_last()
    }
}

/// The opened paths after `path` was opened: the empty path is never opened.
pub open spec fn opened_with(opened: Set<Seq<usize>>, path: Seq<usize>) -> Set<Seq<usize>> {
    if path.len() == 0 {
        opened
    } else {
        opened.insert(path)
    }
}

/// `TreeItem::new`: an item that holds the given children, in their order.
/// Of the label nothing is claimed: the widget keeps it as lines of text.
#[verifier::external_body]
pub(crate) fn new_item(label: &str, children: Vec<TreeItem<'static>>) -> (item: TreeItem<'static>)
    ensures
        item_shape(item) == (TreeShape { children: items_shape(children@) }),
{
    TreeItem::new(label.to_owned(), children)
}

/// `TreeState::default`: nothing selected, nothing opened.
#[verifier::external_body]
pub(crate) fn new_state() -> (state: TreeState)
    ensures
        tree_selected(state) == Seq::<usize>::empty(),
        tree_opened(state) == Set::<Seq<usize>>::empty(),
{
    TreeState::default()
}

/// `TreeState::select_first`: selects the first root node.
#[verifier::external_body]
pub(crate) fn select_first(state: &mut TreeState)
    ensures
        tree_selected(*final(state)) == seq![0usize],
        tree_opened(*final(state)) == tree_opened(*old(state)),
{
    state.select_first()
}

/// `TreeState::select_last`: selects the last visible node.
#[verifier::external_body]
pub(crate) fn select_last(state: &mut TreeState, items: &Vec<TreeItem<'static>>)
    ensures
        tree_selected(*final(state)) == selected_last(tree_opened(*old(state)), items_shape(items@)),
        tree_opened(*final(state)) == tree_opened(*old(state)),
{
    state.select_last(items)
}

/// `TreeState::key_down`: moves the selection one visible node down. It
/// panics on an empty tree.
#[verifier::external_body]
pub(crate) fn key_down(state: &mut TreeState, items: &Vec<TreeItem<'static>>)
    requires
        items@.len() > 0,
    ensures
        tree_selected(*final(state)) == selected_after_down(
            tree_selected(*old(state)),
            tree_opened(*old(state)),
            items_shape(items@),
        ),
        tree_opened(*final(state)) == tree_opened(*old(state)),
{
    state.key_down(items)
}

/// `TreeState::key_up`: moves the selection one visible node up. It panics
/// on an empty tree.
#[verifier::external_body]
pub(crate) fn key_up(state: &mut TreeState, items: &Vec<TreeItem<'static>>)
    requires
        items@.len() > 0,
    ensures
        tree_selected(*final(state)) == selected_after_up(
            tree_selected(*old(state)),
            tree_opened(*old(state)),
            items_shape(items@),
        ),
        tree_opened(*final(state)) == tree_opened(*old(state)),
{
    state.key_up(items)
}

/// `TreeState::key_left`: closes the selected node if it is opened, else
/// selects its parent.
#[verifier::external_body]
pub(crate) fn key_left(state: &mut TreeState)
    ensures
        tree_opened(*old(state)).contains(tree_selected(*old(state))) ==> {
            &&& tree_selected(*final(state)) == tree_selected(*old(state))
            &&& tree_opened(*final(state)) == tree_opened(*old(state)).remove(
                tree_selected(*old(state)),
            )
        },
        !tree_opened(*old(state)).contains(tree_selected(*old(state))) ==> {
            &&& tree_selected(*final(state)) == parent_path(tree_selected(*old(state)))
            &&& tree_opened(*final(state)) == tree_opened(*old(state))
        },
{
    state.key_left()
}

/// `TreeState::key_right`: opens the selected node.
#[verifier::external_body]
pub(crate) fn key_right(state: &mut TreeState)
    ensures
        tree_selected(*final(state)) == tree_selected(*old(state)),
        tree_opened(*final(state)) == opened_with(
            tree_opened(*old(state)),
            tree_selected(*old(state)),
        ),
{
    state.key_right()
}

/// `TreeState::toggle_selected`: closes the selected node if it is opened,
/// else opens it.
#[verifier::external_body]
pub(crate) fn toggle_selected(state: &mut TreeState)
    ensures
        tree_selected(*final(state)) == tree_selected(*old(state)),
        tree_opened(*old(state)).contains(tree_selected(*old(state))) ==> tree_opened(
            *final(state),
        ) == tree_opened(*old(state)).remove(tree_selected(*old(state))),
        !tree_opened(*old(state)).contains(tree_selected(*old(state))) ==> tree_opened(
            *final(state),
        ) == opened_with(tree_opened(*old(state)), tree_selected(*old(state))),
{
    state.toggle_selected()
}

} // verus!
