use vstd::prelude::*;

verus! {

/// One attribute of an element: a key and its value, already turned into text.
#[derive(Clone, Debug, PartialEq, Eq)]
pub struct Attribute {
    pub key: String,
    pub value: String,
}

/// An element: a tag name, its attributes in declared order and its children.
pub struct Element {
    pub tag: String,
    pub attrs: Vec<Attribute>,
    pub children: Vec<Node>,
}

/// A node of a markup tree.
pub enum Node {
    /// A nested element.
    Element(Element),
    /// A literal or computed text, placed on its own at the child's depth.
    Text(String),
    /// The expansion of a loop: one element per iteration, kept together as
    /// a single child.
    Loop(Vec<Element>),
}

/// How a tree is laid out.
#[derive(Clone, Copy, Debug, PartialEq, Eq)]
pub enum RenderMode {
    /// Everything on one line, with no separators and no indentation.
    Lined,
    /// Children on their own lines, each level indented by the given number
    /// of spaces (zero gives newlines without indentation).
    Indent(usize),
}

impl Attribute {
    /// An attribute with the given key and value.
    pub fn new(key: &str, value: &str) -> (r: Attribute)
        ensures
            r.key@ == key@,
            r.value@ == value@,
    {
        Attribute { key: String::from_str(key), value: String::from_str(value) }
    }
}

impl Element {
    /// An element with the given tag, no attributes and no children.
    pub fn new(tag: &str) -> (r: Element)
        ensures
            r.tag@ == tag@,
            r.attrs@.len() == 0,
            r.children@.len() == 0,
    {
        Element { tag: String::from_str(tag), attrs: Vec::new(), children: Vec::new() }
    }

    /// This element with one more attribute after the others.
    pub fn attr(self, key: &str, value: &str) -> (r: Element)
        ensures
            r.tag == self.tag,
            r.children == self.children,
            r.attrs@.len() == self.attrs@.len() + 1,
            r.attrs@.drop_last() == self.attrs@,
            r.attrs@.last().key@ == key@,
            r.attrs@.last().value@ == value@,
    {
        let mut e = self;
        e.attrs.push(Attribute::new(key, value));
        e
    }

    /// This element with one more child after the others.
    pub fn child(self, node: Node) -> (r: Element)
        ensures
            r.tag == self.tag,
            r.attrs == self.attrs,
            r.children@ == self.children@.push(node),
    {
        let mut e = self;
        e.children.push(node);
        e
    }
}

impl Node {
    /// A text node holding `s`.
    pub fn text(s: &str) -> (r: Node)
        ensures
            r matches Node::Text(t) && t@ == s@,
    {
        Node::Text(String::from_str(s))
    }
}

} // verus!
