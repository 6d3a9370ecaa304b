use vstd::prelude::*;

use crate::attributes::{attrs_text, render_attributes};
use crate::markup::{Element, Node, RenderMode};
use crate::strings::str_equal;

verus! {

/// `n` spaces.
pub open spec fn spaces(n: nat) -> Seq<char> {
    Seq::new(n, |_i: int| ' ')
}

/// The prefix of a line at nesting depth `depth`.
pub open spec fn indent_spec(mode: RenderMode, depth: nat) -> Seq<char> {
    match mode {
        RenderMode::Lined => Seq::empty(),
        RenderMode::Indent(width) => spaces(width as nat * depth),
    }
}

/// What stands between two children: nothing on one line, else a newline.
pub open spec fn separator(mode: RenderMode) -> Seq<char> {
    match mode {
        RenderMode::Lined => Seq::empty(),
        RenderMode::Indent(_) => seq!['\n'],
    }
}

/// Adds `part` after the text gathered so far, with a separator only when
/// something has already been gathered.
pub open spec fn join_step(acc: Seq<char>, part: Seq<char>, sep: Seq<char>) -> Seq<char> {
    if acc.len() == 0 {
        part
    } else {
        acc + sep + part
    }
}

/// The tags that never have content or a closing tag.
pub open spec fn is_void_spec(tag: Seq<char>) -> bool {
    tag == "area"@ || tag == "base"@ || tag == "br"@ || tag == "col"@ || tag == "embed"@ || tag
        == "hr"@ || tag == "img"@ || tag == "input"@ || tag == "link"@ || tag == "meta"@ || tag
        == "source"@ || tag == "track"@ || tag == "wbr"@
}

/// `<tag attrs>` at the element's own indentation.
pub open spec fn open_tag(e: Element, mode: RenderMode, depth: nat) -> Seq<char> {
    indent_spec(mode, depth) + "<"@ + e.tag@ + attrs_text(e.attrs@) + ">"@
}

/// `</tag>`.
pub open spec fn close_tag(e: Element) -> Seq<char> {
    "</"@ + e.tag@ + ">"@
}

/// A node rendered at nesting depth `depth`.
pub open spec fn render_node_spec(n: Node, mode: RenderMode, depth: nat) -> Seq<char>
    decreases n, 0int,
{
    match n {
        Node::Element(e) => render_element_spec(e, mode, depth),
        Node::Text(t) => indent_spec(mode, depth) + t@,
        Node::Loop(items) => render_loop_spec(items@, mode, depth, items@.len() as int),
    }
}

/// The first `k` elements of a loop, each at depth `depth`, joined.
pub open spec fn render_loop_spec(items: Seq<Element>, mode: RenderMode, depth: nat, k: int) -> Seq<
    char,
>
    decreases items, k,
{
    if k <= 0 || k > items.len() {
        Seq::empty()
    } else {
        join_step(
            render_loop_spec(items, mode, depth, k - 1),
            render_element_spec(items[k - 1], mode, depth),
            separator(mode),
        )
    }
}

/// The first `k` children, each at depth `depth`, joined.
pub open spec fn render_children_spec(ns: Seq<Node>, mode: RenderMode, depth: nat, k: int) -> Seq<
    char,
>
    decreases ns, k,
{
    if k <= 0 || k > ns.len() {
        Seq::empty()
    } else {
        join_step(
            render_children_spec(ns, mode, depth, k - 1),
            render_node_spec(ns[k - 1], mode, depth),
            separator(mode),
        )
    }
}

/// What an element's children render to, one level deeper than the element.
pub open spec fn inner_spec(e: Element, mode: RenderMode, depth: nat) -> Seq<char>
    decreases e, 1int,
{
    render_children_spec(e.children@, mode, depth + 1, e.children@.len() as int)
}

/// An element rendered at nesting depth `depth`.
pub open spec fn render_element_spec(e: Element, mode: RenderMode, depth: nat) -> Seq<char>
    decreases e, 2int,
{
    if is_void_spec(e.tag@) {
        open_tag(e, mode, depth)
    } else {
        let inner = inner_spec(e, mode, depth);
        if inner.len() == 0 {
            open_tag(e, mode, depth) + close_tag(e)
        } else {
            open_tag(e, mode, depth) + separator(mode) + inner + separator(mode) + indent_spec(
                mode,
                depth,
            ) + close_tag(e)
        }
    }
}

/// Whether `tag` is one of the void tags.
pub fn is_void_tag(tag: &str) -> (r: bool)
    ensures
        r == is_void_spec(tag@),
{
    str_equal(tag, "area") || str_equal(tag, "base") || str_equal(tag, "br") || str_equal(tag, "col")
        || str_equal(tag, "embed") || str_equal(tag, "hr") || str_equal(tag, "img") || str_equal(
        tag,
        "input",
    ) || str_equal(tag, "link") || str_equal(tag, "meta") || str_equal(tag, "source") || str_equal(
        tag,
        "track",
    ) || str_equal(tag, "wbr")
}

/// The separator between children in `mode`.
fn separator_text(mode: RenderMode) -> (r: &'static str)
    ensures
        r@ == separator(mode),
{
    match mode {
        RenderMode::Lined => {
            proof {
                reveal_strlit("");
            }
            ""
        },
        RenderMode::Indent(_) => {
            proof {
                reveal_strlit("\n");
            }
            "\n"
        },
    }
}

proof fn lemma_spaces_add(a: nat, b: nat)
    ensures
        spaces(a) + spaces(b) == spaces(a + b),
{
    assert(spaces(a) + spaces(b) =~= spaces(a + b));
}

/// The indentation of one level in `mode`.
fn indent_unit(mode: RenderMode) -> (r: String)
    ensures
        r@ == indent_spec(mode, 1),
{
    let mut out = String::new();
    match mode {
        RenderMode::Lined => {
            assert(out@ =~= indent_spec(mode, 1));
        },
        RenderMode::Indent(width) => {
            let mut j: usize = 0;
            assert(out@ =~= spaces(0));
            while j < width
                invariant
                    j <= width,
                    out@ == spaces(j as nat),
                decreases width - j,
            {
                proof {
                    reveal_strlit(" ");
                }
                out.append(" ");
                assert(out@ =~= spaces(j as nat + 1));
                j = j + 1;
            }
        },
    }
    out
}

/// The indentation of nesting depth `depth` in `mode`.
fn indentation(mode: RenderMode, unit: &str, depth: usize) -> (r: String)
    requires
        unit@ == indent_spec(mode, 1),
    ensures
        r@ == indent_spec(mode, depth as nat),
{
    let mut out = String::new();
    let mut i: usize = 0;
    assert(out@ =~= indent_spec(mode, 0));
    while i < depth
        invariant
            i <= depth,
            unit@ == indent_spec(mode, 1),
            out@ == indent_spec(mode, i as nat),
        decreases depth - i,
    {
        proof {
            lemma_indent_step(mode, i as nat);
        }
        out.append(unit);
        i = i + 1;
    }
    out
}

proof fn lemma_indent_step(mode: RenderMode, depth: nat)
    ensures
        indent_spec(mode, depth) + indent_spec(mode, 1) == indent_spec(mode, depth + 1),
{
    match mode {
        RenderMode::Lined => {
            assert(indent_spec(mode, depth) + indent_spec(mode, 1) =~= indent_spec(
                mode,
                depth + 1,
            ));
        },
        RenderMode::Indent(width) => {
            let w = width as nat;
            assert(w * depth + w * 1 == w * (depth + 1)) by (nonlinear_arith);
            lemma_spaces_add(w * depth, w * 1);
        },
    }
}

fn render_node_exec(
    n: &Node,
    mode: RenderMode,
    unit: &str,
    indent: &str,
    Ghost(depth): Ghost<nat>,
) -> (r: String)
    requires
        unit@ == indent_spec(mode, 1),
        indent@ == indent_spec(mode, depth),
    ensures
        r@ == render_node_spec(*n, mode, depth),
    decreases n, 0int,
{
    match n {
        Node::Element(e) => render_element_exec(e, mode, unit, indent, Ghost(depth)),
        Node::Text(t) => {
            let mut out = String::from_str(indent);
            out.append(t.as_str());
            out
        },
        Node::Loop(items) => {
            let sep = separator_text(mode);
            let mut out = String::new();
            let mut i: usize = 0;
            while i < items.len()
                invariant
                    *n == Node::Loop(*items),
                    i <= items@.len(),
                    sep@ == separator(mode),
                    unit@ == indent_spec(mode, 1),
                    indent@ == indent_spec(mode, depth),
                    out@ == render_loop_spec(items@, mode, depth, i as int),
                decreases items@.len() - i,
            {
                proof {
                    assert(decreases_to!(*n => (*n)->Loop_0));
                    assert(decreases_to!(*items => items@));
                    assert(decreases_to!(items@ => items@[i as int]));
                }
                let part = render_element_exec(&items[i], mode, unit, indent, Ghost(depth));
                if !out.as_str().is_empty() {
                    out.append(sep);
                }
                out.append(part.as_str());
                i = i + 1;
            }
            out
        },
    }
}

fn render_element_exec(
    e: &Element,
    mode: RenderMode,
    unit: &str,
    indent: &str,
    Ghost(depth): Ghost<nat>,
) -> (r: String)
    requires
        unit@ == indent_spec(mode, 1),
        indent@ == indent_spec(mode, depth),
    ensures
        r@ == render_element_spec(*e, mode, depth),
    decreases e, 2int,
{
    let tag = e.tag.as_str();
    let mut out = String::from_str(indent);
    out.append("<");
    out.append(tag);
    let attrs = render_attributes(&e.attrs);
    out.append(attrs.as_str());
    out.append(">");
    assert(out@ == open_tag(*e, mode, depth));
    if is_void_tag(tag) {
        return out;
    }
    let sep = separator_text(mode);
    let mut child_indent = String::from_str(indent);
    child_indent.append(unit);
    proof {
        lemma_indent_step(mode, depth);
    }
    let mut inner = String::new();
    let mut i: usize = 0;
    while i < e.children.len()
        invariant
            i <= e.children@.len(),
            sep@ == separator(mode),
            unit@ == indent_spec(mode, 1),
            child_indent@ == indent_spec(mode, depth + 1),
            inner@ == render_children_spec(e.children@, mode, depth + 1, i as int),
        decreases e.children@.len() - i,
    {
        assert(decreases_to!(*e => e.children@[i as int]));
        let part = render_node_exec(
            &e.children[i],
            mode,
            unit,
            child_indent.as_str(),
            Ghost(depth + 1),
        );
        if !inner.as_str().is_empty() {
            inner.append(sep);
        }
        inner.append(part.as_str());
        i = i + 1;
    }
    if !inner.as_str().is_empty() {
        out.append(sep);
        out.append(inner.as_str());
        out.append(sep);
        out.append(indent);
    }
    out.append("</");
    out.append(tag);
    out.append(">");
    out
}

/// Renders `node` as if it stood at nesting depth `depth`: its own lines
/// carry the indentation of that depth.
pub fn render_at(node: &Node, mode: RenderMode, depth: usize) -> (r: String)
    ensures
        r@ == render_node_spec(*node, mode, depth as nat),
{
    let unit = indent_unit(mode);
    let indent = indentation(mode, unit.as_str(), depth);
    render_node_exec(node, mode, unit.as_str(), indent.as_str(), Ghost(depth as nat))
}

/// Renders a whole tree, its root at depth zero.
pub fn render(node: &Node, mode: RenderMode) -> (r: String)
    ensures
        r@ == render_node_spec(*node, mode, 0),
{
    render_at(node, mode, 0)
}

/// Renders a whole tree after a `<!DOCTYPE html>` line, in every mode.
pub fn render_document(node: &Node, mode: RenderMode) -> (r: String)
    ensures
        r@ == "<!DOCTYPE html>\n"@ + render_node_spec(*node, mode, 0),
{
    let body = render(node, mode);
    let mut out = String::from_str("<!DOCTYPE html>\n");
    out.append(body.as_str());
    out
}

} // verus!
