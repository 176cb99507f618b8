use vstd::prelude::*;

use crate::attributes::KeyValue;

verus! {

broadcast use vstd::std_specs::vec::group_vec_axioms;

/// What a node is: an element with a tag name, or a piece of text.
#[derive(Debug, Clone)]
pub enum DomValue {
    /// An element such as `div`.
    Element { tag: &'static str },
    /// A text leaf.
    Text(String),
}

/// A node of the tree.
///
/// A node is an element (tag name, attributes, children), a text leaf, or an
/// attribute overlay: extra attributes laid in front of a wrapped node. The
/// overlay shows the wrapped node's value, and folding its children folds
/// nothing: only attributes are carried through an overlay.
pub enum DomNode {
    /// An element with its attributes, in order, and its children, in order.
    Element { tag: &'static str, attrs: Vec<KeyValue>, children: Vec<DomNode> },
    /// A text leaf.
    Text(String),
    /// Attributes laid in front of those of the wrapped node.
    WithAttributes { extra: Vec<KeyValue>, inner: Box<DomNode> },
}

/// The value of a node, as a model: an element's tag name, or a text.
pub enum ValueModel {
    /// An element, with its tag name.
    Element(Seq<char>),
    /// A text leaf, with its text.
    Text(Seq<char>),
}

impl DomNode {
    /// The attribute list of the node, as addressed by index.
    pub open spec fn attr_seq(self) -> Seq<KeyValue>
        decreases self,
    {
        match self {
            DomNode::Element { attrs, .. } => attrs@,
            DomNode::Text(_) => Seq::empty(),
            DomNode::WithAttributes { extra, inner } => extra@ + (*inner).attr_seq(),
        }
    }

    /// The children that a fold over this node's children visits.
    pub open spec fn child_seq(self) -> Seq<DomNode> {
        match self {
            DomNode::Element { children, .. } => children@,
            _ => Seq::empty(),
        }
    }

    /// The value of the node; an overlay shows that of the node it wraps.
    pub open spec fn value_model(self) -> ValueModel
        decreases self,
    {
        match self {
            DomNode::Element { tag, .. } => ValueModel::Element(tag@),
            DomNode::Text(s) => ValueModel::Text(s@),
            DomNode::WithAttributes { inner, .. } => (*inner).value_model(),
        }
    }

    /// Whether the node is an element `tag` with exactly these attributes and
    /// children.
    pub open spec fn is_element(self, tag: Seq<char>, attrs: Seq<KeyValue>, children: Seq<DomNode>) -> bool {
        &&& self is Element
        &&& self.value_model() == ValueModel::Element(tag)
        &&& self.attr_seq() == attrs
        &&& self.child_seq() == children
    }

    /// A text leaf holding `s`.
    pub fn text(s: &str) -> (r: DomNode)
        ensures
            r.value_model() == ValueModel::Text(s@),
            r.attr_seq() == Seq::<KeyValue>::empty(),
            r.child_seq() == Seq::<DomNode>::empty(),
    {
        DomNode::Text(String::from_str(s))
    }

    /// The attribute at `index`, or `None` past the end of the list.
    pub open spec fn attribute_at(self, index: int) -> Option<KeyValue> {
        if 0 <= index < self.attr_seq().len() {
            Some(self.attr_seq()[index])
        } else {
            None
        }
    }

    /// The attribute at `index`, or `None` past the end of the list.
    pub fn get_attribute(&self, index: usize) -> (r: Option<&KeyValue>)
        ensures
            match r {
                Some(kv) => self.attribute_at(index as int) == Some(*kv),
                None => self.attribute_at(index as int) is None,
            },
        decreases self,
    {
        match self {
            DomNode::Element { attrs, .. } => {
                if index < attrs.len() {
                    Some(&attrs[index])
                } else {
                    None
                }
            },
            DomNode::Text(_) => None,
            DomNode::WithAttributes { extra, inner } => {
                if index < extra.len() {
                    Some(&extra[index])
                } else {
                    inner.get_attribute(index - extra.len())
                }
            },
        }
    }

    /// All attributes of the node, in order: those at indices 0, 1, ... up to
    /// the first index that holds none.
    pub fn attributes(&self) -> (r: Vec<&KeyValue>)
        ensures
            r@.len() == self.attr_seq().len(),
            forall|j: int| 0 <= j < r@.len() ==> *r@[j] == self.attr_seq()[j],
        decreases self,
    {
        match self {
            DomNode::Element { attrs, .. } => refs_of(attrs),
            DomNode::Text(_) => Vec::new(),
            DomNode::WithAttributes { extra, inner } => {
                let mut r = refs_of(extra);
                let mut rest = inner.attributes();
                r.append(&mut rest);
                r
            },
        }
    }

    /// Wraps the node in an overlay whose attribute list is `extra` followed
    /// by the node's own.
    pub fn with_attributes(self, extra: Vec<KeyValue>) -> (r: DomNode)
        ensures
            r.attr_seq() == extra@ + self.attr_seq(),
            r.value_model() == self.value_model(),
            r.child_seq() == Seq::<DomNode>::empty(),
    {
        DomNode::WithAttributes { extra, inner: Box::new(self) }
    }

    /// Whether the node is an element or a text, with its tag name or text.
    pub fn value(&self) -> (r: DomValue)
        ensures
            match r {
                DomValue::Element { tag } => self.value_model() == ValueModel::Element(tag@),
                DomValue::Text(s) => self.value_model() == ValueModel::Text(s@),
            },
        decreases self,
    {
        match self {
            DomNode::Element { tag, .. } => DomValue::Element { tag },
            DomNode::Text(s) => DomValue::Text(s.clone()),
            DomNode::WithAttributes { inner, .. } => inner.value(),
        }
    }
}

/// References to the items of `v`, in order.
fn refs_of<T>(v: &Vec<T>) -> (r: Vec<&T>)
    ensures
        r@.len() == v@.len(),
        forall|j: int| 0 <= j < r@.len() ==> *r@[j] == v@[j],
{
    let mut r: Vec<&T> = Vec::new();
    let mut i: usize = 0;
    while i < v.len()
        invariant
            i <= v@.len(),
            r@.len() == i,
            forall|j: int| 0 <= j < i ==> *r@[j] == v@[j],
        decreases v@.len() - i,
    {
        r.push(&v[i]);
        i = i + 1;
    }
    r
}

/// Past the end of a node's attribute list no index holds an attribute:
/// where index `i` yields none, so does every later index.
pub proof fn lemma_attributes_exhaust(node: DomNode, i: int, j: int)
    requires
        0 <= i <= j,
        node.attribute_at(i) is None,
    ensures
        node.attribute_at(j) is None,
{
}

/// Wrapping a node with `first`, then the result with `second`, addresses
/// `second`, then `first`, then the node's own attributes, in that order.
pub proof fn lemma_overlay_order(node: DomNode, first: Vec<KeyValue>, second: Vec<KeyValue>)
    ensures
        (DomNode::WithAttributes {
            extra: second,
            inner: Box::new(DomNode::WithAttributes { extra: first, inner: Box::new(node) }),
        }).attr_seq() == second@ + first@ + node.attr_seq(),
{
    let inner = DomNode::WithAttributes { extra: first, inner: Box::new(node) };
    assert(inner.attr_seq() == first@ + node.attr_seq());
    assert(second@ + (first@ + node.attr_seq()) =~= second@ + first@ + node.attr_seq());
}

} // verus!
