use vstd::prelude::*;

use crate::attributes::{attr_fragment, attrs_text, has_framework_prefix};
use crate::markup::{Element, Node, RenderMode};
use crate::render::{
    indent_spec,
    inner_spec,
    is_void_spec,
    join_step,
    render_children_spec,
    render_element_spec,
    render_loop_spec,
    render_node_spec,
    separator,
};
use crate::strings::unescape_quotes_spec;

verus! {

/// An element that is not void and has no children renders as its opening
/// tag directly followed by its closing tag, with no line break, in every mode.
pub proof fn lemma_childless_element(e: Element, mode: RenderMode, depth: nat)
    requires
        e.children@.len() == 0,
        !is_void_spec(e.tag@),
    ensures
        render_element_spec(e, mode, depth) == indent_spec(mode, depth) + "<"@ + e.tag@
            + attrs_text(e.attrs@) + ">"@ + "</"@ + e.tag@ + ">"@,
{
    assert(inner_spec(e, mode, depth).len() == 0);
}

/// A void element renders as its opening tag alone, whatever children it was
/// given, in every mode.
pub proof fn lemma_void_element(e: Element, mode: RenderMode, depth: nat)
    requires
        is_void_spec(e.tag@),
    ensures
        render_element_spec(e, mode, depth) == indent_spec(mode, depth) + "<"@ + e.tag@
            + attrs_text(e.attrs@) + ">"@,
{
}

/// The value `true` renders as the bare key, and the value `false` renders as
/// nothing, whatever the key.
pub proof fn lemma_boolean_attribute(key: Seq<char>)
    ensures
        attr_fragment(key, "true"@) == " "@ + key,
        attr_fragment(key, "false"@) == Seq::<char>::empty(),
{
    reveal_strlit("true");
    reveal_strlit("false");
    assert("false"@.len() != "true"@.len());
}

/// A value holding a double quote, or a key of a front-end framework (with a
/// value other than `true` and `false`), is single-quoted with `\"`
/// unescaped; any other pair is double-quoted verbatim.
pub proof fn lemma_quoting(key: Seq<char>, value: Seq<char>)
    ensures
        value.contains('"') ==> attr_fragment(key, value) == " "@ + key + "='"@
            + unescape_quotes_spec(value) + "'"@,
        has_framework_prefix(key) && value != "true"@ && value != "false"@ ==> attr_fragment(
            key,
            value,
        ) == " "@ + key + "='"@ + unescape_quotes_spec(value) + "'"@,
        !has_framework_prefix(key) && !value.contains('"') && value != "true"@ && value
            != "false"@ ==> attr_fragment(key, value) == " "@ + key + "=\""@ + value + "\""@,
{
    reveal_strlit("true");
    reveal_strlit("false");
    if value.contains('"') {
        assert(value != "true"@ && value != "false"@) by {
            let i = choose|i: int| 0 <= i < value.len() && value[i] == '"';
            if value == "true"@ {
                assert(value[i] == "true"@[i]);
            }
            if value == "false"@ {
                assert(value[i] == "false"@[i]);
            }
        }
    }
}

/// `s` with its line breaks taken out.
pub open spec fn without_newlines(s: Seq<char>) -> Seq<char>
    decreases s.len(),
{
    if s.len() == 0 {
        Seq::empty()
    } else if s.last() == '\n' {
        without_newlines(s.drop_last())
    } else {
        without_newlines(s.drop_last()).push(s.last())
    }
}

proof fn lemma_without_newlines_add(a: Seq<char>, b: Seq<char>)
    ensures
        without_newlines(a + b) == without_newlines(a) + without_newlines(b),
    decreases b.len(),
{
    if b.len() == 0 {
        assert(a + b =~= a);
        assert(without_newlines(a) + without_newlines(b) =~= without_newlines(a));
    } else {
        assert((a + b).drop_last() =~= a + b.drop_last());
        lemma_without_newlines_add(a, b.drop_last());
        if b.last() != '\n' {
            assert(without_newlines(a) + without_newlines(b.drop_last()).push(b.last())
                =~= (without_newlines(a) + without_newlines(b.drop_last())).push(b.last()));
        }
    }
}

proof fn lemma_join_step_modes(
    a0: Seq<char>,
    al: Seq<char>,
    p0: Seq<char>,
    pl: Seq<char>,
)
    requires
        without_newlines(a0) == without_newlines(al),
        without_newlines(p0) == without_newlines(pl),
        (a0.len() == 0) == (al.len() == 0),
        (p0.len() == 0) == (pl.len() == 0),
    ensures
        without_newlines(join_step(a0, p0, seq!['\n'])) == without_newlines(
            join_step(al, pl, Seq::empty()),
        ),
        (join_step(a0, p0, seq!['\n']).len() == 0) == (join_step(al, pl, Seq::empty()).len()
            == 0),
{
    if a0.len() != 0 {
        lemma_without_newlines_add(a0, seq!['\n']);
        lemma_without_newlines_add(a0 + seq!['\n'], p0);
        lemma_without_newlines_add(al, Seq::empty());
        lemma_without_newlines_add(al + Seq::empty(), pl);
        lemma_newline_removed();
        assert(without_newlines(a0) + without_newlines(seq!['\n']) =~= without_newlines(a0));
        assert(without_newlines(al) + without_newlines(Seq::<char>::empty()) =~= without_newlines(
            al,
        ));
    }
}

proof fn lemma_newline_removed()
    ensures
        without_newlines(seq!['\n']) == Seq::<char>::empty(),
{
    let nl = seq!['\n'];
    assert(nl.drop_last() =~= Seq::<char>::empty());
    assert(nl.last() == '\n');
    assert(without_newlines(Seq::<char>::empty()) == Seq::<char>::empty());
}

proof fn lemma_no_indent(depth: nat)
    ensures
        indent_spec(RenderMode::Indent(0), depth) == indent_spec(RenderMode::Lined, depth),
{
    assert(indent_spec(RenderMode::Indent(0), depth) =~= indent_spec(RenderMode::Lined, depth));
}

proof fn lemma_element_modes(e: Element, depth: nat)
    ensures
        without_newlines(render_element_spec(e, RenderMode::Indent(0), depth)) == without_newlines(
            render_element_spec(e, RenderMode::Lined, depth),
        ),
        render_element_spec(e, RenderMode::Indent(0), depth).len() > 0,
        render_element_spec(e, RenderMode::Lined, depth).len() > 0,
    decreases e, 2int,
{
    let z = RenderMode::Indent(0);
    let l = RenderMode::Lined;
    lemma_element_not_empty(e, z, depth);
    lemma_element_not_empty(e, l, depth);
    lemma_no_indent(depth);
    lemma_children_modes(e.children@, depth + 1, e.children@.len() as int);
    let head = indent_spec(l, depth) + "<"@ + e.tag@ + attrs_text(e.attrs@) + ">"@;
    let close = "</"@ + e.tag@ + ">"@;
    let i0 = inner_spec(e, z, depth);
    let il = inner_spec(e, l, depth);
    if !is_void_spec(e.tag@) && i0.len() != 0 {
        let nl = seq!['\n'];
        lemma_newline_removed();
        lemma_without_newlines_add(head, nl);
        lemma_without_newlines_add(head + nl, i0);
        lemma_without_newlines_add(head + nl + i0, nl);
        lemma_without_newlines_add(head + nl + i0 + nl, indent_spec(l, depth));
        lemma_without_newlines_add(head + nl + i0 + nl + indent_spec(l, depth), close);
        let e0 = Seq::<char>::empty();
        assert(without_newlines(e0) =~= e0);
        lemma_without_newlines_add(head, e0);
        lemma_without_newlines_add(head + e0, il);
        lemma_without_newlines_add(head + e0 + il, e0);
        lemma_without_newlines_add(head + e0 + il + e0, indent_spec(l, depth));
        lemma_without_newlines_add(head + e0 + il + e0 + indent_spec(l, depth), close);
        assert(head + e0 =~= head);
        assert(head + e0 + il + e0 =~= head + il);
    }
}

proof fn lemma_node_modes(n: Node, depth: nat)
    ensures
        without_newlines(render_node_spec(n, RenderMode::Indent(0), depth)) == without_newlines(
            render_node_spec(n, RenderMode::Lined, depth),
        ),
        (render_node_spec(n, RenderMode::Indent(0), depth).len() == 0) == (render_node_spec(
            n,
            RenderMode::Lined,
            depth,
        ).len() == 0),
    decreases n, 0int,
{
    lemma_no_indent(depth);
    match n {
        Node::Element(e) => lemma_element_modes(e, depth),
        Node::Text(t) => {},
        Node::Loop(items) => lemma_loop_modes(items@, depth, items@.len() as int),
    }
}

proof fn lemma_children_modes(ns: Seq<Node>, depth: nat, k: int)
    ensures
        without_newlines(render_children_spec(ns, RenderMode::Indent(0), depth, k))
            == without_newlines(render_children_spec(ns, RenderMode::Lined, depth, k)),
        (render_children_spec(ns, RenderMode::Indent(0), depth, k).len() == 0) == (
        render_children_spec(ns, RenderMode::Lined, depth, k).len() == 0),
    decreases ns, k,
{
    if 0 < k <= ns.len() {
        lemma_children_modes(ns, depth, k - 1);
        lemma_node_modes(ns[k - 1], depth);
        lemma_join_step_modes(
            render_children_spec(ns, RenderMode::Indent(0), depth, k - 1),
            render_children_spec(ns, RenderMode::Lined, depth, k - 1),
            render_node_spec(ns[k - 1], RenderMode::Indent(0), depth),
            render_node_spec(ns[k - 1], RenderMode::Lined, depth),
        );
    }
}

proof fn lemma_loop_modes(items: Seq<Element>, depth: nat, k: int)
    ensures
        without_newlines(render_loop_spec(items, RenderMode::Indent(0), depth, k))
            == without_newlines(render_loop_spec(items, RenderMode::Lined, depth, k)),
        (render_loop_spec(items, RenderMode::Indent(0), depth, k).len() == 0) == (
        render_loop_spec(items, RenderMode::Lined, depth, k).len() == 0),
    decreases items, k,
{
    if 0 < k <= items.len() {
        lemma_loop_modes(items, depth, k - 1);
        lemma_element_modes(items[k - 1], depth);
        lemma_join_step_modes(
            render_loop_spec(items, RenderMode::Indent(0), depth, k - 1),
            render_loop_spec(items, RenderMode::Lined, depth, k - 1),
            render_element_spec(items[k - 1], RenderMode::Indent(0), depth),
            render_element_spec(items[k - 1], RenderMode::Lined, depth),
        );
    }
}

/// Rendering one tree on a single line and with newlines but no indentation
/// gives the same text once the line breaks are taken out.
pub proof fn lemma_lined_matches_unindented(n: Node, depth: nat)
    ensures
        without_newlines(render_node_spec(n, RenderMode::Indent(0), depth)) == without_newlines(
            render_node_spec(n, RenderMode::Lined, depth),
        ),
{
    lemma_node_modes(n, depth);
}


/// `parts` with `sep` between each two neighbours.
pub open spec fn interleave(parts: Seq<Seq<char>>, sep: Seq<char>) -> Seq<char>
    decreases parts.len(),
{
    if parts.len() == 0 {
        Seq::empty()
    } else if parts.len() == 1 {
        parts[0]
    } else {
        interleave(parts.drop_last(), sep) + sep + parts.last()
    }
}

/// Each element rendered on its own at depth `depth`.
pub open spec fn rendered_each(items: Seq<Element>, mode: RenderMode, depth: nat) -> Seq<
    Seq<char>,
> {
    Seq::new(items.len(), |i: int| render_element_spec(items[i], mode, depth))
}

proof fn lemma_element_not_empty(e: Element, mode: RenderMode, depth: nat)
    ensures
        render_element_spec(e, mode, depth).len() > 0,
{
    reveal_strlit("<");
    let head = indent_spec(mode, depth) + "<"@ + e.tag@ + attrs_text(e.attrs@) + ">"@;
    assert(render_element_spec(e, mode, depth).len() >= head.len());
}

proof fn lemma_loop_prefix(items: Seq<Element>, mode: RenderMode, depth: nat, k: int)
    requires
        0 <= k <= items.len(),
    ensures
        render_loop_spec(items, mode, depth, k) == interleave(
            rendered_each(items, mode, depth).subrange(0, k),
            separator(mode),
        ),
        k > 0 ==> render_loop_spec(items, mode, depth, k).len() > 0,
    decreases k,
{
    let parts = rendered_each(items, mode, depth);
    if k > 0 {
        lemma_loop_prefix(items, mode, depth, k - 1);
        lemma_element_not_empty(items[k - 1], mode, depth);
        assert(parts.subrange(0, k).drop_last() =~= parts.subrange(0, k - 1));
        if k == 1 {
            assert(render_loop_spec(items, mode, depth, 0).len() == 0);
        }
    }
}

/// A loop renders exactly as its elements, each rendered on its own at the
/// loop's depth, with the mode's separator between neighbours.
pub proof fn lemma_loop_concatenates(items: Vec<Element>, mode: RenderMode, depth: nat)
    ensures
        render_node_spec(Node::Loop(items), mode, depth) == interleave(
            rendered_each(items@, mode, depth),
            separator(mode),
        ),
{
    lemma_loop_prefix(items@, mode, depth, items@.len() as int);
    assert(rendered_each(items@, mode, depth).subrange(0, items@.len() as int) =~= rendered_each(
        items@,
        mode,
        depth,
    ));
}

} // verus!
