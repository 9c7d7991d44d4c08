//! The document tree: element and text nodes, each owning its children.
//!
//! A tree is built bottom-up with [`text`] and [`elem`] and is not changed
//! afterwards. Every type has a mathematical view (`@`), and the contracts
//! below are stated both over the stored values and over those views.

use crate::tokens::{split_tokens, tokens};
use vstd::hash_map::StringHashMap;
use vstd::hash_set::StringHashSet;
use vstd::prelude::*;

verus! {

/// Attribute names mapped to attribute values. A name occurs at most once;
/// inserting a name again replaces its value.
pub type AttrMap = StringHashMap<String>;

/// A node of the tree, the exclusive owner of its children.
pub struct Node {
    /// The children, in document order.
    pub children: Vec<Node>,
    pub node_type: NodeType,
}

/// The two kinds of node, each with what it carries.
pub enum NodeType {
    Element(ElementData),
    /// Character data. A text node is meant to be a leaf; see
    /// [`NodeView::well_formed`].
    Text(String),
}

/// What an element node carries besides its children. Names are kept and
/// compared as they are given: `ID` is not `id`.
pub struct ElementData {
    pub tag_name: String,
    pub attrs: AttrMap,
}

/// The view of an [`ElementData`].
pub struct ElementView {
    pub tag_name: Seq<char>,
    pub attrs: Map<Seq<char>, Seq<char>>,
}

/// The view of a [`NodeType`].
pub enum NodeTypeView {
    Element(ElementView),
    Text(Seq<char>),
}

/// The view of a [`Node`]: the whole subtree as a mathematical value.
pub struct NodeView {
    pub children: Seq<NodeView>,
    pub node_type: NodeTypeView,
}

/// The attribute map with each value replaced by its characters.
pub open spec fn attrs_view(attrs: AttrMap) -> Map<Seq<char>, Seq<char>> {
    attrs@.map_values(|value: String| value@)
}

/// The views of `nodes`, in the same order.
pub open spec fn views(nodes: Seq<Node>) -> Seq<NodeView> {
    nodes.map_values(|node: Node| node@)
}

impl View for ElementData {
    type V = ElementView;

    open spec fn view(&self) -> ElementView {
        ElementView { tag_name: self.tag_name@, attrs: attrs_view(self.attrs) }
    }
}

impl View for NodeType {
    type V = NodeTypeView;

    open spec fn view(&self) -> NodeTypeView {
        match self {
            NodeType::Element(element) => NodeTypeView::Element(element@),
            NodeType::Text(data) => NodeTypeView::Text(data@),
        }
    }
}

impl Node {
    /// The subtree below and including this node, child by child.
    pub open spec fn subtree(&self) -> NodeView
        decreases self,
    {
        NodeView {
            children: Seq::new(
                self.children@.len(),
                |i: int|
                    if 0 <= i < self.children@.len() {
                        self.children@[i].subtree()
                    } else {
                        arbitrary()
                    },
            ),
            node_type: self.node_type@,
        }
    }
}

impl View for Node {
    type V = NodeView;

    open spec fn view(&self) -> NodeView {
        self.subtree()
    }
}

impl NodeView {
    /// A text leaf holding `data`.
    pub open spec fn text(data: Seq<char>) -> NodeView {
        NodeView { children: Seq::empty(), node_type: NodeTypeView::Text(data) }
    }

    /// An element with the given tag, attributes and children.
    pub open spec fn element(
        tag_name: Seq<char>,
        attrs: Map<Seq<char>, Seq<char>>,
        children: Seq<NodeView>,
    ) -> NodeView {
        NodeView { children, node_type: NodeTypeView::Element(ElementView { tag_name, attrs }) }
    }

    /// Every text node in this subtree is a leaf.
    ///
    /// The types do not enforce this. [`text`] establishes it and [`elem`]
    /// preserves it, so it holds of every tree built with these two alone.
    pub open spec fn well_formed(self) -> bool
        decreases self,
    {
        &&& self.node_type is Text ==> self.children.len() == 0
        &&& forall|i: int|
            0 <= i < self.children.len() ==> (#[trigger] self.children[i]).well_formed()
    }
}

impl ElementView {
    /// The value of the `id` attribute, if the element has one.
    pub open spec fn id(self) -> Option<Seq<char>> {
        if self.attrs.contains_key("id"@) {
            Some(self.attrs["id"@])
        } else {
            None
        }
    }

    /// The classes of the element: the pieces of its `class` attribute
    /// between spaces, and no class at all where the attribute is missing.
    /// Neighbouring spaces, or a space at either end, give the empty class.
    pub open spec fn classes(self) -> Set<Seq<char>> {
        if self.attrs.contains_key("class"@) {
            tokens(self.attrs["class"@], ' ')
        } else {
            Set::empty()
        }
    }
}

/// Builds a text leaf. Any string is accepted, the empty one too.
pub fn text(data: String) -> (node: Node)
    ensures
        node.node_type == NodeType::Text(data),
        node.children@ == Seq::<Node>::empty(),
        node@ == NodeView::text(data@),
        node@.well_formed(),
{
    let node = Node { children: Vec::new(), node_type: NodeType::Text(data) };
    assert(node@.children =~= Seq::empty());
    node
}

/// Builds an element that owns `attrs` and `children`. Neither the tag nor
/// the attributes are checked against any schema.
pub fn elem(tag_name: String, attrs: AttrMap, children: Vec<Node>) -> (node: Node)
    ensures
        node.node_type == NodeType::Element(ElementData { tag_name, attrs }),
        node.children == children,
        node@ == NodeView::element(tag_name@, attrs_view(attrs), views(children@)),
        (forall|i: int| 0 <= i < children@.len() ==> (#[trigger] children@[i])@.well_formed())
            ==> node@.well_formed(),
{
    let node = Node { children, node_type: NodeType::Element(ElementData { tag_name, attrs }) };
    assert(node@.children =~= views(node.children@));
    node
}

impl ElementData {
    /// The stored value of the `id` attribute, if there is one.
    pub open spec fn stored_id(&self) -> Option<&String> {
        if self.attrs@.contains_key("id"@) {
            Some(&self.attrs@["id"@])
        } else {
            None
        }
    }

    /// Looks up the `id` attribute. Nothing here asks that an id be unique
    /// within a tree.
    pub fn id(&self) -> (found: Option<&String>)
        ensures
            found == self.stored_id(),
            found is None <==> !self.attrs@.contains_key("id"@),
            found matches Some(value) ==> *value == self.attrs@["id"@],
            match found {
                Some(value) => self@.id() == Some(value@),
                None => self@.id() is None,
            },
    {
        self.attrs.get("id")
    }

    /// The set of classes named by the `class` attribute, split at each
    /// space and not trimmed.
    pub fn classes(&self) -> (set: StringHashSet)
        ensures
            set@ == self@.classes(),
            set@.finite(),
            !self.attrs@.contains_key("class"@) ==> set@ == Set::<Seq<char>>::empty(),
            self.attrs@.contains_key("class"@) ==> set@ == tokens(self.attrs@["class"@]@, ' '),
    {
        match self.attrs.get("class") {
            Some(value) => split_tokens(value.as_str(), ' '),
            None => StringHashSet::new(),
        }
    }
}

/// Looking up the id of one element twice gives one answer: whatever two
/// calls of [`ElementData::id`] return for it, they return the same.
pub proof fn lemma_id_is_repeatable(
    element: ElementData,
    first: Option<&String>,
    second: Option<&String>,
)
    requires
        first == element.stored_id(),
        second == element.stored_id(),
    ensures
        first == second,
{
}

/// Asking one element for its classes twice gives one set: whatever two
/// calls of [`ElementData::classes`] return for it, they hold the same
/// classes.
pub proof fn lemma_classes_are_repeatable(
    element: ElementData,
    first: StringHashSet,
    second: StringHashSet,
)
    requires
        first@ == element@.classes(),
        second@ == element@.classes(),
    ensures
        first@ == second@,
{
}

} // verus!
