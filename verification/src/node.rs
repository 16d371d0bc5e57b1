//! The tree of named nodes that a feed is decoded from.
//!
//! Whoever reads the document's syntax resolves every prefix to its
//! namespace, decodes every entity, and hands over this tree. Names are
//! compared letter for letter; the first of several attributes or children of
//! one name is the one that counts for a field that is written once.

use vstd::prelude::*;
use crate::decoded::option_view;
use crate::text::same_text;

verus! {

/// The model of an attribute.
pub struct AttributeView {
    pub name: Seq<char>,
    pub value: Seq<char>,
}

/// A named attribute of a node.
#[derive(Debug, PartialEq, Eq, Default)]
pub struct Attribute {
    pub name: String,
    pub value: String,
}

impl View for Attribute {
    type V = AttributeView;

    open spec fn view(&self) -> AttributeView {
        AttributeView { name: self.name@, value: self.value@ }
    }
}

/// The model of a node.
pub struct NodeView {
    pub namespace: Seq<char>,
    pub name: Seq<char>,
    pub attributes: Seq<AttributeView>,
    pub text: Option<Seq<char>>,
    pub children: Seq<NodeView>,
}

/// An element of the document.
#[derive(Debug, PartialEq, Eq, Default)]
pub struct Node {
    /// The namespace that the element's name belongs to; empty for none.
    pub namespace: String,
    /// The element's name within its namespace.
    pub name: String,
    /// The element's attributes, in document order.
    pub attributes: Vec<Attribute>,
    /// The text that the element holds, if it holds any.
    pub text: Option<String>,
    /// The elements directly inside this one, in document order.
    pub children: Vec<Node>,
}

/// The model of a node: its names, its attributes and its text as they are,
/// and the models of its children in place of the children.
pub open spec fn node_view(n: Node) -> NodeView
    decreases n,
{
    NodeView {
        namespace: n.namespace@,
        name: n.name@,
        attributes: n.attributes@.map_values(|a: Attribute| a@),
        text: option_view(n.text),
        children: Seq::new(
            n.children@.len(),
            |i: int|
                if 0 <= i < n.children@.len() {
                    node_view(n.children@[i])
                } else {
                    arbitrary()
                },
        ),
    }
}

impl View for Node {
    type V = NodeView;

    open spec fn view(&self) -> NodeView {
        node_view(*self)
    }
}

/// The value of the first attribute called `name`, if there is one.
pub open spec fn first_attribute(attributes: Seq<AttributeView>, name: Seq<char>) -> Option<
    Seq<char>,
>
    decreases attributes.len(),
{
    if attributes.len() == 0 {
        None
    } else if attributes[0].name == name {
        Some(attributes[0].value)
    } else {
        first_attribute(attributes.drop_first(), name)
    }
}

/// The first node called `name` in `namespace`, if there is one.
pub open spec fn first_named(
    nodes: Seq<NodeView>,
    namespace: Seq<char>,
    name: Seq<char>,
) -> Option<NodeView>
    decreases nodes.len(),
{
    if nodes.len() == 0 {
        None
    } else if nodes[0].is_named(namespace, name) {
        Some(nodes[0])
    } else {
        first_named(nodes.drop_first(), namespace, name)
    }
}

impl NodeView {
    /// Whether the node is called `name` in `namespace`.
    pub open spec fn is_named(self, namespace: Seq<char>, name: Seq<char>) -> bool {
        self.namespace == namespace && self.name == name
    }

    /// The value of the node's first attribute called `name`, if it has one.
    pub open spec fn attribute(self, name: Seq<char>) -> Option<Seq<char>> {
        first_attribute(self.attributes, name)
    }

    /// The node's first child called `name` in `namespace`, if it has one.
    pub open spec fn child(self, namespace: Seq<char>, name: Seq<char>) -> Option<NodeView> {
        first_named(self.children, namespace, name)
    }

    /// The text of the node's first child called `name` in `namespace`;
    /// none where there is no such child, or where that child holds no text.
    pub open spec fn child_text(self, namespace: Seq<char>, name: Seq<char>) -> Option<
        Seq<char>,
    > {
        match self.child(namespace, name) {
            Some(child) => child.text,
            None => None,
        }
    }

    /// The node's children called `name` in `namespace`, in document order.
    pub open spec fn children_named(self, namespace: Seq<char>, name: Seq<char>) -> Seq<
        NodeView,
    > {
        self.children.filter(|c: NodeView| c.is_named(namespace, name))
    }
}

/// A selection keeps the order of what it selects from: of any two of its
/// elements, the one that comes first in the selection comes first in `s`.
proof fn lemma_filter_keeps_order(s: Seq<NodeView>, p: spec_fn(NodeView) -> bool, a: int, b: int)
    requires
        0 <= a < b < s.filter(p).len(),
    ensures
        exists|i: int, j: int|
            0 <= i < j < s.len() && s[i] == s.filter(p)[a] && s[j] == s.filter(p)[b],
    decreases s.len(),
{
    reveal(Seq::filter);
    if s.len() > 0 {
        let rest = s.drop_last();
        if p(s.last()) && b == rest.filter(p).len() {
            let x = rest.filter(p)[a];
            assert(rest.filter(p).contains(x));
            rest.lemma_filter_contains_rev(p, x);
            let i = choose|i: int| 0 <= i < rest.len() && rest[i] == x;
            let j = s.len() - 1;
            assert(0 <= i < j < s.len() && s[i] == s.filter(p)[a] && s[j] == s.filter(p)[b]);
        } else {
            lemma_filter_keeps_order(rest, p, a, b);
            let (i, j) = choose|i: int, j: int|
                0 <= i < j < rest.len() && rest[i] == rest.filter(p)[a] && rest[j] == rest.filter(
                    p,
                )[b];
            assert(0 <= i < j < s.len() && s[i] == s.filter(p)[a] && s[j] == s.filter(p)[b]);
        }
    }
}

impl NodeView {
    /// The children of one name are the node's children of that name, all of
    /// them and no others.
    pub proof fn lemma_children_named_are_those_named(self, namespace: Seq<char>, name: Seq<char>)
        ensures
            forall|k: int|
                0 <= k < self.children_named(namespace, name).len() ==> {
                    &&& (#[trigger] self.children_named(namespace, name)[k]).is_named(
                        namespace,
                        name,
                    )
                    &&& self.children.contains(self.children_named(namespace, name)[k])
                },
            forall|i: int|
                0 <= i < self.children.len() && (#[trigger] self.children[i]).is_named(
                    namespace,
                    name,
                ) ==> self.children_named(namespace, name).contains(self.children[i]),
    {
        let p = |c: NodeView| c.is_named(namespace, name);
        let named = self.children.filter(p);
        assert forall|k: int| 0 <= k < named.len() implies (#[trigger] named[k]).is_named(
            namespace,
            name,
        ) && self.children.contains(named[k]) by {
            self.children.lemma_filter_pred(p, k);
            assert(named.contains(named[k]));
            self.children.lemma_filter_contains_rev(p, named[k]);
        }
        assert forall|i: int|
            0 <= i < self.children.len() && (#[trigger] self.children[i]).is_named(
                namespace,
                name,
            ) implies named.contains(self.children[i]) by {
            self.children.lemma_filter_contains(p, i);
        }
    }

    /// The children of one name stand in document order: of any two of them,
    /// the one that comes first among them comes first among the node's
    /// children.
    pub proof fn lemma_children_named_keep_order(
        self,
        namespace: Seq<char>,
        name: Seq<char>,
        a: int,
        b: int,
    )
        requires
            0 <= a < b < self.children_named(namespace, name).len(),
        ensures
            exists|i: int, j: int|
                0 <= i < j < self.children.len() && self.children[i] == self.children_named(
                    namespace,
                    name,
                )[a] && self.children[j] == self.children_named(namespace, name)[b],
    {
        lemma_filter_keeps_order(self.children, |c: NodeView| c.is_named(namespace, name), a, b);
    }
}

impl Node {
    /// Decides whether the node is called `name` in `namespace`.
    pub fn has_name(&self, namespace: &str, name: &str) -> (named: bool)
        ensures
            named == self@.is_named(namespace@, name@),
    {
        same_text(self.namespace.as_str(), namespace) && same_text(self.name.as_str(), name)
    }

    /// Finds the value of the node's first attribute called `name`.
    pub fn attribute(&self, name: &str) -> (value: Option<&str>)
        ensures
            option_view(value) == self@.attribute(name@),
    {
        let mut i: usize = 0;
        assert(self@.attributes.skip(0) =~= self@.attributes);
        while i < self.attributes.len()
            invariant
                i <= self.attributes.len(),
                self@.attributes == self.attributes@.map_values(|a: Attribute| a@),
                first_attribute(self@.attributes, name@) == first_attribute(
                    self@.attributes.skip(i as int),
                    name@,
                ),
            decreases self.attributes.len() - i,
        {
            let ghost rest = self@.attributes.skip(i as int);
            assert(rest.drop_first() =~= self@.attributes.skip(i + 1));
            if same_text(self.attributes[i].name.as_str(), name) {
                return Some(self.attributes[i].value.as_str());
            }
            i = i + 1;
        }
        None
    }

    /// Finds the node's first child called `name` in `namespace`.
    pub fn child(&self, namespace: &str, name: &str) -> (found: Option<&Node>)
        ensures
            option_view(found) == self@.child(namespace@, name@),
    {
        let mut i: usize = 0;
        assert(self@.children.skip(0) =~= self@.children);
        while i < self.children.len()
            invariant
                i <= self.children.len(),
                self@.children.len() == self.children@.len(),
                forall|j: int|
                    0 <= j < self.children@.len()
                        ==> self@.children[j] == (#[trigger] self.children@[j])@,
                first_named(self@.children, namespace@, name@) == first_named(
                    self@.children.skip(i as int),
                    namespace@,
                    name@,
                ),
            decreases self.children.len() - i,
        {
            let ghost rest = self@.children.skip(i as int);
            assert(rest.drop_first() =~= self@.children.skip(i + 1));
            if self.children[i].has_name(namespace, name) {
                return Some(&self.children[i]);
            }
            i = i + 1;
        }
        None
    }

    /// Reads the text of the node's first child called `name` in `namespace`.
    pub fn child_text(&self, namespace: &str, name: &str) -> (text: Option<&str>)
        ensures
            option_view(text) == self@.child_text(namespace@, name@),
    {
        match self.child(namespace, name) {
            Some(c) => match &c.text {
                Some(t) => Some(t.as_str()),
                None => None,
            },
            None => None,
        }
    }

    /// Collects the node's children called `name` in `namespace`, in
    /// document order.
    pub fn children_named(&self, namespace: &str, name: &str) -> (found: Vec<&Node>)
        ensures
            found@.map_values(|c: &Node| c@) == self@.children_named(namespace@, name@),
    {
        let ghost wanted = |c: NodeView| c.is_named(namespace@, name@);
        let mut found: Vec<&Node> = Vec::new();
        let mut i: usize = 0;
        while i < self.children.len()
            invariant
                i <= self.children.len(),
                self@.children.len() == self.children@.len(),
                forall|j: int|
                    0 <= j < self.children@.len()
                        ==> self@.children[j] == (#[trigger] self.children@[j])@,
                wanted == |c: NodeView| c.is_named(namespace@, name@),
                found@.map_values(|c: &Node| c@) == self@.children.take(i as int).filter(wanted),
            decreases self.children.len() - i,
        {
            let ghost before = found@.map_values(|c: &Node| c@);
            proof {
                assert(self@.children.take(i + 1) =~= self@.children.take(i as int).push(
                    self.children@[i as int]@,
                ));
                self@.children.take(i as int).lemma_filter_push(self.children@[i as int]@, wanted);
            }
            if self.children[i].has_name(namespace, name) {
                found.push(&self.children[i]);
                assert(found@.map_values(|c: &Node| c@) =~= before.push(
                    self.children@[i as int]@,
                ));
            }
            i = i + 1;
        }
        assert(self@.children.take(i as int) =~= self@.children);
        found
    }
}

} // verus!
