use vstd::prelude::*;

use crate::markup::Attribute;
use crate::strings::{
    contains_char,
    has_prefix,
    starts_with,
    str_equal,
    unescape_quotes,
    unescape_quotes_spec,
};

verus! {

/// Keys that front-end frameworks read as expressions: their values are
/// single-quoted so that they may hold double quotes.
pub open spec fn has_framework_prefix(key: Seq<char>) -> bool {
    has_prefix(key, ":"@) || has_prefix(key, "@"@) || has_prefix(key, "x-"@) || has_prefix(
        key,
        "hx-"@,
    )
}

/// Whether an attribute with this key and value is written with single quotes.
pub open spec fn single_quoted(key: Seq<char>, value: Seq<char>) -> bool {
    has_framework_prefix(key) || value.contains('"')
}

/// The text that one attribute adds after the tag name.
pub open spec fn attr_fragment(key: Seq<char>, value: Seq<char>) -> Seq<char> {
    if value == "true"@ {
        " "@ + key
    } else if value == "false"@ {
        Seq::empty()
    } else if single_quoted(key, value) {
        " "@ + key + "='"@ + unescape_quotes_spec(value) + "'"@
    } else {
        " "@ + key + "=\""@ + value + "\""@
    }
}

/// The fragments of all attributes, in order.
pub open spec fn attrs_text(attrs: Seq<Attribute>) -> Seq<char>
    decreases attrs.len(),
{
    if attrs.len() == 0 {
        Seq::empty()
    } else {
        attrs_text(attrs.drop_last()) + attr_fragment(attrs.last().key@, attrs.last().value@)
    }
}

/// Renders one attribute: a bare key for `true`, nothing for `false`, else
/// `key="value"`, or `key='value'` for framework keys and values holding a
/// double quote (with `\"` unescaped).
pub fn render_attribute(attr: &Attribute) -> (r: String)
    ensures
        r@ == attr_fragment(attr.key@, attr.value@),
{
    let key = attr.key.as_str();
    let value = attr.value.as_str();
    let mut out = String::from_str(" ");
    if str_equal(value, "true") {
        out.append(key);
        out
    } else if str_equal(value, "false") {
        String::new()
    } else if starts_with(key, ":") || starts_with(key, "@") || starts_with(key, "x-")
        || starts_with(key, "hx-") || contains_char(value, '"') {
        let clean = unescape_quotes(value);
        out.append(key);
        out.append("='");
        out.append(clean.as_str());
        out.append("'");
        out
    } else {
        out.append(key);
        out.append("=\"");
        out.append(value);
        out.append("\"");
        out
    }
}

/// Renders all attributes in declared order, each with its leading space.
pub fn render_attributes(attrs: &Vec<Attribute>) -> (r: String)
    ensures
        r@ == attrs_text(attrs@),
{
    let mut out = String::new();
    let mut i: usize = 0;
    while i < attrs.len()
        invariant
            i <= attrs@.len(),
            out@ == attrs_text(attrs@.subrange(0, i as int)),
        decreases attrs@.len() - i,
    {
        let piece = render_attribute(&attrs[i]);
        assert(attrs@.subrange(0, i + 1).drop_last() =~= attrs@.subrange(0, i as int));
        out.append(piece.as_str());
        i = i + 1;
    }
    assert(attrs@.subrange(0, attrs@.len() as int) =~= attrs@);
    out
}

} // verus!
