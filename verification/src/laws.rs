//! Laws of the renderer, stated over the spec functions that the
//! rendering functions are proved against: what map sugar does to a
//! field line and to the marker type, how the `optional` label depends
//! on the syntax version, how oneof ownership partitions the field
//! list, and how a leading comment is attached.

use vstd::prelude::*;
use crate::comments::{lemma_first_nl_unique, spec_comment_at, spec_comment_block};
use crate::descriptor::{FieldDescriptor, MessageDescriptor, SourceInfo, Syntax};
use crate::text_spec::{
    find_map_marker, last_seg, spec_direct_field_entry, spec_field_line, spec_field_type,
    spec_major_prefix, spec_map_override, spec_nested_entry, spec_oneof_field_entry, spec_opt_num,
    spec_opt_str,
};

verus! {

broadcast use crate::util::lemma_seq_assoc_auto, crate::util::lemma_seq_empty_right_auto,
    crate::util::lemma_seq_empty_left_auto;

/// Everything of a field line after its type: space, name, ` = `,
/// number, terminator.
pub open spec fn spec_field_rest(f: FieldDescriptor) -> Seq<char> {
    " "@ + spec_opt_str(f.name) + " = "@ + spec_opt_num(f.number) + ";\n"@
}

/// A field whose referenced type's last segment names a sibling
/// map-entry marker renders as the marker's two-parameter `Map` type,
/// and its cardinality label is suppressed entirely, whatever the label
/// codes say.
pub proof fn lemma_map_sugar_field(
    fs: Seq<FieldDescriptor>,
    i: int,
    nested: Seq<MessageDescriptor>,
    ind: Seq<char>,
    base: Seq<i32>,
    syn: Syntax,
    tab: Option<SourceInfo>,
)
    requires
        0 <= i < fs.len(),
        fs[i].oneof_index is None,
        spec_map_override(fs[i], nested) is Some,
    ensures
        spec_direct_field_entry(fs, i, nested, ind, base, syn, tab) == spec_comment_block(
            tab,
            base.push(i as i32),
            ind,
        ) + ind + spec_map_override(fs[i], nested)->0 + spec_field_rest(fs[i]),
{
}

/// What the map substitution is: `Map<` key type `, ` value type `>`
/// from the two fields of the named marker.
pub proof fn lemma_map_override_is_map_type(
    f: FieldDescriptor,
    nested: Seq<MessageDescriptor>,
    t: MessageDescriptor,
)
    requires
        f.type_ref is Some,
        find_map_marker(nested, last_seg((f.type_ref->0)@)) == Some(t),
    ensures
        spec_map_override(f, nested) == Some(
            "Map<"@ + spec_field_type(t.field@[0]) + ", "@ + spec_field_type(t.field@[1]) + ">"@,
        ),
{
}

/// A map-entry marker contributes nothing to its message's nested
/// declarations: it never reappears as an ordinary nested message.
pub proof fn lemma_marker_not_rendered(
    ts: Seq<MessageDescriptor>,
    i: int,
    ind: Seq<char>,
    base: Seq<i32>,
    syn: Syntax,
    tab: Option<SourceInfo>,
)
    requires
        0 <= i < ts.len(),
        ts[i].map_entry,
    ensures
        spec_nested_entry(ts, i, ind, base, syn, tab) == Seq::<char>::empty(),
{
}

/// A field labelled `optional` renders with the leading keyword under
/// the older syntax, and as the identical line without it under the
/// newer one.
pub proof fn lemma_optional_label_syntax(
    f: FieldDescriptor,
    ind: Seq<char>,
    p: Seq<i32>,
    tab: Option<SourceInfo>,
)
    requires
        f.label == Some(1i32),
    ensures
        spec_field_line(f, None, false, ind, p, Syntax::Proto2, tab) == spec_comment_block(
            tab,
            p,
            ind,
        ) + ind + "optional "@ + spec_field_type(f) + spec_field_rest(f),
        spec_field_line(f, None, false, ind, p, Syntax::Proto3, tab) == spec_comment_block(
            tab,
            p,
            ind,
        ) + ind + spec_field_type(f) + spec_field_rest(f),
{
}

/// A field a oneof owns contributes nothing to the direct field list of
/// its message.
pub proof fn lemma_oneof_field_not_direct(
    fs: Seq<FieldDescriptor>,
    i: int,
    nested: Seq<MessageDescriptor>,
    ind: Seq<char>,
    base: Seq<i32>,
    syn: Syntax,
    tab: Option<SourceInfo>,
)
    requires
        0 <= i < fs.len(),
        fs[i].oneof_index is Some,
    ensures
        spec_direct_field_entry(fs, i, nested, ind, base, syn, tab) == Seq::<char>::empty(),
{
}

/// Inside block `j`, a field renders exactly when `j` owns it, at its
/// original position's structural address.
pub proof fn lemma_oneof_membership(
    fs: Seq<FieldDescriptor>,
    i: int,
    j: i32,
    ind: Seq<char>,
    base: Seq<i32>,
    syn: Syntax,
    tab: Option<SourceInfo>,
)
    requires
        0 <= i < fs.len(),
    ensures
        fs[i].oneof_index == Some(j) ==> spec_oneof_field_entry(fs, i, j, ind, base, syn, tab)
            == spec_field_line(fs[i], None, false, ind, base.push(i as i32), syn, tab),
        fs[i].oneof_index != Some(j) ==> spec_oneof_field_entry(fs, i, j, ind, base, syn, tab)
            == Seq::<char>::empty(),
{
}

/// A major declaration whose address carries a one-line comment is
/// preceded by a blank line and that comment as one `//` line; one
/// whose address carries none is preceded by the blank line alone.
pub proof fn lemma_comment_attachment(
    tab: Option<SourceInfo>,
    p: Seq<i32>,
    ind: Seq<char>,
    c: Seq<char>,
)
    requires
        spec_comment_at(tab, p) == Some(c),
        c.len() > 0,
        forall|i: int| 0 <= i < c.len() ==> c[i] != '\n',
    ensures
        spec_major_prefix(tab, p, ind) == "\n"@ + (ind + "//"@ + c + "\n"@),
{
    lemma_first_nl_unique(c, c.len() as int);
}

/// The blank separator stands alone when no comment is recorded.
pub proof fn lemma_comment_miss(tab: Option<SourceInfo>, p: Seq<i32>, ind: Seq<char>)
    requires
        spec_comment_at(tab, p) is None,
    ensures
        spec_major_prefix(tab, p, ind) == "\n"@,
{
}

} // verus!
