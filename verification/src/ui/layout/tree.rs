//! The inspection tree and how it is built from a breakpoint's payload.

use crate::json::{
    fields_view, parse_json, parsed_json, FieldModel, JsonField, JsonModel, JsonValue,
};
use vstd::prelude::*;

verus! {

/// A node of the inspection tree. A leaf has no children.
#[derive(Debug, PartialEq, Eq, Hash)]
pub struct TreeNode {
    pub label: String,
    pub children: Vec<TreeNode>,
}

/// What a `TreeNode` holds.
pub ghost struct TreeModel {
    pub label: Seq<char>,
    pub children: Seq<TreeModel>,
}

impl View for TreeNode {
    type V = TreeModel;

    open spec fn view(&self) -> TreeModel
        decreases self,
    {
        TreeModel { label: self.label@, children: nodes_view(self.children@) }
    }
}

/// A list of nodes, each taken by its view.
pub open spec fn nodes_view(nodes: Seq<TreeNode>) -> Seq<TreeModel>
    decreases nodes,
{
    Seq::new(
        nodes.len(),
        |i: int|
            if 0 <= i < nodes.len() {
                nodes[i]@
            } else {
                arbitrary()
            },
    )
}

/// A list's view has the list's length and holds each node's view in place.
pub proof fn lemma_nodes_view(nodes: Seq<TreeNode>)
    ensures
        nodes_view(nodes).len() == nodes.len(),
        forall|i: int| 0 <= i < nodes.len() ==> (#[trigger] nodes_view(nodes)[i]) == nodes[i]@,
{
}

/// The shape of a node: how many children it has and what shape each of
/// them has. Labels are no part of it.
pub ghost struct TreeShape {
    pub children: Seq<TreeShape>,
}

/// The shape of a node.
pub open spec fn shape_of(node: TreeModel) -> TreeShape
    decreases node,
{
    TreeShape { children: shapes_of(node.children) }
}

/// The shapes of a list of nodes, in place.
pub open spec fn shapes_of(nodes: Seq<TreeModel>) -> Seq<TreeShape>
    decreases nodes,
{
    Seq::new(
        nodes.len(),
        |i: int|
            if 0 <= i < nodes.len() {
                shape_of(nodes[i])
            } else {
                arbitrary()
            },
    )
}

/// A list has as many shapes as nodes, and each is the shape of the node in
/// its place.
pub proof fn lemma_shapes_of(nodes: Seq<TreeModel>)
    ensures
        shapes_of(nodes).len() == nodes.len(),
        forall|i: int| 0 <= i < nodes.len() ==> (#[trigger] shapes_of(nodes)[i]) == shape_of(nodes[i]),
{
}

/// A node without children.
pub open spec fn leaf(label: Seq<char>) -> TreeModel {
    TreeModel { label, children: Seq::empty() }
}

/// A node for a named field: the name, with the field's text as its one leaf.
pub open spec fn named_leaf(name: Seq<char>, text: Seq<char>) -> TreeModel {
    TreeModel { label: name, children: seq![leaf(text)] }
}

/// The text of a value that is shown as it is: a string's content, a
/// number's or an array's text. Other values have none.
pub open spec fn leaf_text(value: JsonModel) -> Option<Seq<char>> {
    match value {
        JsonModel::String(text) => Some(text),
        JsonModel::Number(text) => Some(text),
        JsonModel::Array(text) => Some(text),
        _ => None,
    }
}

/// What a field that is no object adds to a list of nodes.
pub open spec fn plain_field_nodes(name: Seq<char>, value: JsonModel) -> Seq<TreeModel> {
    match leaf_text(value) {
        Some(text) => seq![named_leaf(name, text)],
        None => Seq::empty(),
    }
}

/// The nodes that the first `n` fields of an object give when the object is
/// flattened: depth first, every field with a text at any depth becomes one
/// node, and the names of the objects on the way are left out.
pub open spec fn flattened(fields: Seq<FieldModel>, n: nat) -> Seq<TreeModel>
    decreases fields, n,
{
    if n == 0 || n > fields.len() {
        Seq::empty()
    } else {
        let field = fields[n - 1];
        flattened(fields, (n - 1) as nat) + match field.value {
            JsonModel::Object(inner) => flattened(inner, inner.len()),
            value => plain_field_nodes(field.name, value),
        }
    }
}

/// The nodes that the first `n` fields of the root object give: a field with
/// a text becomes a node with that text as its leaf, a field that is an
/// object becomes a node with the flattened object as its children.
pub open spec fn top_nodes(fields: Seq<FieldModel>, n: nat) -> Seq<TreeModel>
    decreases n,
{
    if n == 0 || n > fields.len() {
        Seq::empty()
    } else {
        let field = fields[n - 1];
        top_nodes(fields, (n - 1) as nat) + match field.value {
            JsonModel::Object(inner) => seq![
                TreeModel { label: field.name, children: flattened(inner, inner.len()) },
            ],
            value => plain_field_nodes(field.name, value),
        }
    }
}

/// The text of a root value that is no object.
pub open spec fn root_text(document: JsonModel) -> Seq<char> {
    match document {
        JsonModel::Null => "null"@,
        JsonModel::Bool(true) => "true"@,
        JsonModel::Bool(false) => "false"@,
        JsonModel::Number(text) => text,
        JsonModel::String(text) => text,
        JsonModel::Array(text) => text,
        JsonModel::Object(_) => Seq::empty(),
    }
}

/// The inspection tree of a document.
pub open spec fn tree_of_json(document: JsonModel) -> Seq<TreeModel> {
    match document {
        JsonModel::Object(fields) => top_nodes(fields, fields.len()),
        _ => seq![leaf(root_text(document))],
    }
}

/// A payload that stands for "nothing to show": the empty text and the two
/// placeholder texts of an empty list.
pub open spec fn is_sentinel(payload: Seq<char>) -> bool {
    payload.len() == 0 || payload == "No variables"@ || payload == "No data"@
}

/// A payload that should be JSON and is not.
pub open spec fn is_malformed(payload: Seq<char>) -> bool {
    !is_sentinel(payload) && parsed_json(payload) is None
}

/// The inspection tree of a payload: empty for a sentinel and for a
/// malformed payload, else the tree of the document that the payload holds.
pub open spec fn tree_of_payload(payload: Seq<char>) -> Seq<TreeModel> {
    if is_sentinel(payload) {
        Seq::empty()
    } else {
        match parsed_json(payload) {
            Some(document) => tree_of_json(document),
            None => Seq::empty(),
        }
    }
}

/// The empty text and the two placeholder texts give the empty tree.
pub proof fn lemma_sentinel_tree_is_empty()
    ensures
        tree_of_payload(Seq::empty()) == Seq::<TreeModel>::empty(),
        tree_of_payload("No variables"@) == Seq::<TreeModel>::empty(),
        tree_of_payload("No data"@) == Seq::<TreeModel>::empty(),
{
}

/// The tree depends on the payload's text and on nothing else: two payloads
/// with the same text have the same tree.
pub proof fn lemma_same_payload_same_tree(first: String, second: String)
    requires
        first@ == second@,
    ensures
        tree_of_payload(first@) == tree_of_payload(second@),
{
}

/// Flattening keeps no nesting: every node that it gives is a name with one
/// leaf below it.
pub proof fn lemma_flattened_is_flat(fields: Seq<FieldModel>, n: nat, i: int)
    requires
        n <= fields.len(),
        0 <= i < flattened(fields, n).len(),
    ensures
        flattened(fields, n)[i].children.len() == 1,
        flattened(fields, n)[i].children[0].children.len() == 0,
    decreases fields, n,
{
    let before = flattened(fields, (n - 1) as nat);
    if i < before.len() {
        lemma_flattened_is_flat(fields, (n - 1) as nat, i);
    } else {
        let field = fields[n - 1];
        match field.value {
            JsonModel::Object(inner) => {
                lemma_flattened_is_flat(inner, inner.len(), i - before.len());
            },
            _ => {},
        }
    }
}

/// The payload was no JSON text.
#[derive(Debug, Clone, Copy, PartialEq, Eq)]
pub struct MalformedPayload;

fn leaf_node(label: String) -> (node: TreeNode)
    ensures
        node@ == leaf(label@),
{
    let node = TreeNode { label, children: Vec::new() };
    assert(node@.children =~= Seq::empty());
    node
}

fn named_leaf_node(name: &String, text: &String) -> (node: TreeNode)
    ensures
        node@ == named_leaf(name@, text@),
{
    let mut children: Vec<TreeNode> = Vec::new();
    children.push(leaf_node(text.clone()));
    let node = TreeNode { label: name.clone(), children };
    assert(node@.children =~= seq![leaf(text@)]);
    node
}

/// Appends to `result` the node of a field that is no object, if it has one.
fn push_plain_field(name: &String, value: &JsonValue, result: &mut Vec<TreeNode>)
    requires
        !(value@ is Object),
    ensures
        nodes_view(final(result)@) == nodes_view(old(result)@) + plain_field_nodes(name@, value@),
{
    match value {
        JsonValue::String(text) | JsonValue::Number(text) | JsonValue::Array(text) => {
            result.push(named_leaf_node(name, text));
            assert(nodes_view(result@) =~= nodes_view(old(result)@) + plain_field_nodes(
                name@,
                value@,
            ));
        },
        _ => {
            assert(nodes_view(result@) =~= nodes_view(old(result)@) + plain_field_nodes(
                name@,
                value@,
            ));
        },
    }
}

/// Flattens an object into `result`: appends one node for every field with
/// a text, at whatever depth it lies, in the order of a depth-first walk.
pub fn recursive_flatten(fields: &Vec<JsonField>, result: &mut Vec<TreeNode>)
    ensures
        nodes_view(final(result)@) == nodes_view(old(result)@) + flattened(
            fields_view(fields@),
            fields@.len(),
        ),
    decreases fields,
{
    let ghost model = fields_view(fields@);
    let mut i: usize = 0;
    assert(nodes_view(result@) =~= nodes_view(old(result)@) + flattened(model, 0));
    while i < fields.len()
        invariant
            i <= fields.len(),
            model == fields_view(fields@),
            nodes_view(result@) == nodes_view(old(result)@) + flattened(model, i as nat),
        decreases fields.len() - i,
    {
        let ghost before = nodes_view(result@);
        let field = &fields[i];
        match &field.value {
            JsonValue::Object(inner) => {
                recursive_flatten(inner, result);
            },
            value => {
                push_plain_field(&field.name, value, result);
            },
        }
        i += 1;
        assert(nodes_view(result@) =~= nodes_view(old(result)@) + flattened(model, i as nat));
    }
}

/// The nodes of the root object: one per field that has a text or is an
/// object, in the order of the fields.
fn root_nodes(fields: &Vec<JsonField>) -> (nodes: Vec<TreeNode>)
    ensures
        nodes_view(nodes@) == top_nodes(fields_view(fields@), fields@.len()),
{
    let ghost model = fields_view(fields@);
    let mut nodes: Vec<TreeNode> = Vec::new();
    let mut i: usize = 0;
    assert(nodes_view(nodes@) =~= top_nodes(model, 0));
    while i < fields.len()
        invariant
            i <= fields.len(),
            model == fields_view(fields@),
            nodes_view(nodes@) == top_nodes(model, i as nat),
        decreases fields.len() - i,
    {
        let ghost before = nodes_view(nodes@);
        let field = &fields[i];
        match &field.value {
            JsonValue::Object(inner) => {
                let mut children: Vec<TreeNode> = Vec::new();
                recursive_flatten(inner, &mut children);
                assert(nodes_view(children@) =~= flattened(fields_view(inner@), inner@.len()));
                nodes.push(TreeNode { label: field.name.clone(), children });
                assert(nodes_view(nodes@) =~= before + seq![
                    TreeModel {
                        label: field.name@,
                        children: flattened(fields_view(inner@), inner@.len()),
                    },
                ]);
            },
            value => {
                push_plain_field(&field.name, value, &mut nodes);
            },
        }
        i += 1;
    }
    nodes
}

/// The text of a root value that is no object.
fn root_label(document: &JsonValue) -> (label: String)
    requires
        !(document@ is Object),
    ensures
        label@ == root_text(document@),
{
    match document {
        JsonValue::Null => String::from_str("null"),
        JsonValue::Bool(true) => String::from_str("true"),
        JsonValue::Bool(false) => String::from_str("false"),
        JsonValue::Number(text) => text.clone(),
        JsonValue::String(text) => text.clone(),
        JsonValue::Array(text) => text.clone(),
        JsonValue::Object(_) => String::new(),
    }
}

/// Builds the inspection tree of a document.
pub fn tree_from_json(document: &JsonValue) -> (nodes: Vec<TreeNode>)
    ensures
        nodes_view(nodes@) == tree_of_json(document@),
{
    match document {
        JsonValue::Object(fields) => root_nodes(fields),
        _ => {
            let mut nodes: Vec<TreeNode> = Vec::new();
            nodes.push(leaf_node(root_label(document)));
            assert(nodes_view(nodes@) =~= seq![leaf(root_text(document@))]);
            nodes
        },
    }
}

/// Tells whether a payload stands for "nothing to show".
pub fn is_sentinel_payload(payload: &str) -> (sentinel: bool)
    ensures
        sentinel == is_sentinel(payload@),
{
    if payload.is_empty() {
        return true;
    }
    let owned = payload.to_owned();
    owned == String::from_str("No variables") || owned == String::from_str("No data")
}

/// Builds the inspection tree of a payload, or says that the payload is
/// malformed. A sentinel payload gives the empty tree.
pub fn build_tree(payload: &str) -> (built: Result<Vec<TreeNode>, MalformedPayload>)
    ensures
        built is Err <==> is_malformed(payload@),
        built matches Ok(nodes) ==> nodes_view(nodes@) == tree_of_payload(payload@),
{
    if is_sentinel_payload(payload) {
        let nodes: Vec<TreeNode> = Vec::new();
        assert(nodes_view(nodes@) =~= Seq::empty());
        return Ok(nodes);
    }
    match parse_json(payload) {
        Some(document) => Ok(tree_from_json(&document)),
        None => Err(MalformedPayload),
    }
}

/// Builds the inspection tree of a payload. A malformed payload gives the
/// empty tree, as a sentinel does.
pub fn build_tree_items(payload: String) -> (nodes: Vec<TreeNode>)
    ensures
        nodes_view(nodes@) == tree_of_payload(payload@),
{
    match build_tree(payload.as_str()) {
        Ok(nodes) => nodes,
        Err(_) => {
            let nodes: Vec<TreeNode> = Vec::new();
            assert(nodes_view(nodes@) =~= Seq::empty());
            nodes
        },
    }
}

} // verus!
