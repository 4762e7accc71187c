//! The mathematical model of the rendered text: one spec function per
//! node kind, mirroring the traversal order and the structural-address
//! numbering of the schema compiler (messages at collection 4 of a file,
//! fields at collection 2 of a message, and so on).

use vstd::prelude::*;
use crate::comments::{spec_comment_at, spec_comment_block, spec_comment_body};
use crate::descriptor::{
    EnumDescriptor, EnumValueDescriptor, FieldDescriptor, FileDescriptor, MessageDescriptor,
    MethodDescriptor, ReservedRange, SourceInfo, Syntax,
};

verus! {

broadcast use vstd::seq::group_seq_axioms;

/// The keyword of one primitive type code; codes outside the valid range
/// render as nothing.
pub open spec fn spec_type_keyword(code: int) -> Seq<char> {
    if code == 1 {
        "double"@
    } else if code == 2 {
        "float"@
    } else if code == 3 {
        "int64"@
    } else if code == 4 {
        "uint64"@
    } else if code == 5 {
        "int32"@
    } else if code == 6 {
        "fixed64"@
    } else if code == 7 {
        "fixed32"@
    } else if code == 8 {
        "bool"@
    } else if code == 9 {
        "string"@
    } else if code == 10 {
        "group"@
    } else if code == 11 {
        "message"@
    } else if code == 12 {
        "bytes"@
    } else if code == 13 {
        "uint32"@
    } else if code == 14 {
        "enum"@
    } else if code == 15 {
        "sfixed32"@
    } else if code == 16 {
        "sfixed64"@
    } else if code == 17 {
        "sint32"@
    } else if code == 18 {
        "sint64"@
    } else {
        Seq::empty()
    }
}

/// A named type reference wins over the primitive code.
pub open spec fn spec_field_type(f: FieldDescriptor) -> Seq<char> {
    match f.type_ref {
        Some(t) => t@,
        None => match f.type_code {
            Some(c) => spec_type_keyword(c as int),
            None => Seq::empty(),
        },
    }
}

/// The view of an optional string, empty when absent.
pub open spec fn spec_opt_str(o: Option<String>) -> Seq<char> {
    match o {
        Some(s) => s@,
        None => Seq::empty(),
    }
}

/// The numeral of an optional number, empty when absent.
pub open spec fn spec_opt_num(o: Option<i32>) -> Seq<char> {
    match o {
        Some(v) => crate::numeral::spec_idec(v as int),
        None => Seq::empty(),
    }
}

/// The cardinality keyword: `required` and `repeated` always render; an
/// `optional` label renders only under the older syntax.
pub open spec fn spec_label(l: Option<i32>, syn: Syntax) -> Seq<char> {
    match l {
        Some(v) => if v == 1 {
            if syn is Proto2 {
                "optional "@
            } else {
                Seq::empty()
            }
        } else if v == 2 {
            "required "@
        } else if v == 3 {
            "repeated "@
        } else {
            Seq::empty()
        },
        None => Seq::empty(),
    }
}

/// One field line. `ov` substitutes the rendered type (map sugar);
/// `suppress` drops the cardinality keyword (map fields carry none).
pub open spec fn spec_field_line(
    f: FieldDescriptor,
    ov: Option<Seq<char>>,
    suppress: bool,
    ind: Seq<char>,
    p: Seq<i32>,
    syn: Syntax,
    tab: Option<SourceInfo>,
) -> Seq<char> {
    spec_comment_block(tab, p, ind) + ind + (if suppress {
        Seq::empty()
    } else {
        spec_label(f.label, syn)
    }) + (match ov {
        Some(t) => t,
        None => spec_field_type(f),
    }) + " "@ + spec_opt_str(f.name) + " = "@ + spec_opt_num(f.number) + ";\n"@
}

/// One enum value line.
pub open spec fn spec_enum_value_line(
    v: EnumValueDescriptor,
    ind: Seq<char>,
    p: Seq<i32>,
    tab: Option<SourceInfo>,
) -> Seq<char> {
    spec_comment_block(tab, p, ind) + ind + spec_opt_str(v.name) + " = "@ + spec_opt_num(v.number)
        + ";\n"@
}

/// The `stream` keyword when a streaming flag is set.
pub open spec fn spec_stream(b: Option<bool>) -> Seq<char> {
    if b == Some(true) {
        "stream "@
    } else {
        Seq::empty()
    }
}

/// One RPC method line.
pub open spec fn spec_method_line(
    m: MethodDescriptor,
    ind: Seq<char>,
    p: Seq<i32>,
    tab: Option<SourceInfo>,
) -> Seq<char> {
    spec_comment_block(tab, p, ind) + ind + (match m.name {
        Some(n) => "rpc "@ + n@,
        None => Seq::empty(),
    }) + "("@ + spec_stream(m.client_streaming) + spec_opt_str(m.input_type) + ") returns ("@
        + spec_stream(m.server_streaming) + spec_opt_str(m.output_type) + ");\n"@
}

/// One reserved range: `start to end`, the end unbounded as `max`.
pub open spec fn spec_range_text(r: ReservedRange) -> Seq<char> {
    spec_opt_num(r.start) + " to "@ + (match r.end {
        Some(e) => crate::numeral::spec_idec(e as int),
        None => "max"@,
    })
}

/// The comma-separated reserved ranges from position `i` on.
pub open spec fn spec_ranges_from(rs: Seq<ReservedRange>, i: int) -> Seq<char>
    decreases rs.len() - i,
{
    if i < 0 || i >= rs.len() {
        Seq::empty()
    } else {
        (if i > 0 {
            ", "@
        } else {
            Seq::empty()
        }) + spec_range_text(rs[i]) + spec_ranges_from(rs, i + 1)
    }
}

/// The whole reserved-ranges line; nothing when no range is reserved.
pub open spec fn spec_reserved_ranges_line(rs: Seq<ReservedRange>, ind: Seq<char>) -> Seq<char> {
    if rs.len() == 0 {
        Seq::empty()
    } else {
        ind + "reserved "@ + spec_ranges_from(rs, 0) + ";\n"@
    }
}

/// The comma-separated quoted reserved names from position `i` on.
pub open spec fn spec_names_from(ns: Seq<String>, i: int) -> Seq<char>
    decreases ns.len() - i,
{
    if i < 0 || i >= ns.len() {
        Seq::empty()
    } else {
        (if i > 0 {
            ", "@
        } else {
            Seq::empty()
        }) + "\""@ + ns[i]@ + "\""@ + spec_names_from(ns, i + 1)
    }
}

/// The whole reserved-names line; nothing when no name is reserved.
pub open spec fn spec_reserved_names_line(ns: Seq<String>, ind: Seq<char>) -> Seq<char> {
    if ns.len() == 0 {
        Seq::empty()
    } else {
        ind + "reserved "@ + spec_names_from(ns, 0) + ";\n"@
    }
}

/// What precedes a major declaration (message, enum, service): its
/// leading comment when one is recorded, else a bare blank line.
pub open spec fn spec_major_prefix(tab: Option<SourceInfo>, p: Seq<i32>, ind: Seq<char>) -> Seq<
    char,
> {
    if spec_comment_at(tab, p) is Some {
        spec_comment_block(tab, p, ind)
    } else {
        "\n"@
    }
}

/// The space-and-name part after a declaration keyword, when named.
pub open spec fn spec_decl_name(n: Option<String>) -> Seq<char> {
    match n {
        Some(s) => " "@ + s@,
        None => Seq::empty(),
    }
}

/// The enum value lines from position `i` on; values are collection 2 of
/// an enum.
pub open spec fn spec_enum_values_from(
    vs: Seq<EnumValueDescriptor>,
    i: int,
    ind: Seq<char>,
    base: Seq<i32>,
    tab: Option<SourceInfo>,
) -> Seq<char>
    decreases vs.len() - i,
{
    if i < 0 || i >= vs.len() {
        Seq::empty()
    } else {
        spec_enum_value_line(vs[i], ind, base.push(i as i32), tab) + spec_enum_values_from(
            vs,
            i + 1,
            ind,
            base,
            tab,
        )
    }
}

/// One whole enum declaration.
pub open spec fn spec_enum_decl(
    e: EnumDescriptor,
    ind: Seq<char>,
    p: Seq<i32>,
    tab: Option<SourceInfo>,
) -> Seq<char> {
    spec_major_prefix(tab, p, ind) + ind + "enum"@ + spec_decl_name(e.name) + " {\n"@
        + spec_enum_values_from(e.value@, 0, ind + "  "@, p.push(2), tab)
        + spec_reserved_ranges_line(e.reserved_range@, ind + "  "@) + spec_reserved_names_line(
        e.reserved_name@,
        ind + "  "@,
    ) + ind + "}\n"@
}

/// The enum declarations from position `i` on.
pub open spec fn spec_enums_from(
    es: Seq<EnumDescriptor>,
    i: int,
    ind: Seq<char>,
    base: Seq<i32>,
    tab: Option<SourceInfo>,
) -> Seq<char>
    decreases es.len() - i,
{
    if i < 0 || i >= es.len() {
        Seq::empty()
    } else {
        spec_enum_decl(es[i], ind, base.push(i as i32), tab) + spec_enums_from(
            es,
            i + 1,
            ind,
            base,
            tab,
        )
    }
}

/// The method lines from position `i` on; methods are collection 2 of a
/// service.
pub open spec fn spec_methods_from(
    ms: Seq<MethodDescriptor>,
    i: int,
    ind: Seq<char>,
    base: Seq<i32>,
    tab: Option<SourceInfo>,
) -> Seq<char>
    decreases ms.len() - i,
{
    if i < 0 || i >= ms.len() {
        Seq::empty()
    } else {
        spec_method_line(ms[i], ind, base.push(i as i32), tab) + spec_methods_from(
            ms,
            i + 1,
            ind,
            base,
            tab,
        )
    }
}

/// One whole service declaration.
pub open spec fn spec_service_decl(
    s: crate::descriptor::ServiceDescriptor,
    ind: Seq<char>,
    p: Seq<i32>,
    tab: Option<SourceInfo>,
) -> Seq<char> {
    spec_major_prefix(tab, p, ind) + ind + "service"@ + spec_decl_name(s.name) + " {\n"@
        + spec_methods_from(s.method@, 0, ind + "  "@, p.push(2), tab) + ind + "}\n"@
}

/// The last path segment of a dotted name: everything after the final
/// dot, or the whole name when it has none.
pub open spec fn last_seg(s: Seq<char>) -> Seq<char>
    decreases s.len(),
{
    if s.len() == 0 {
        s
    } else if s[s.len() - 1] == '.' {
        Seq::empty()
    } else {
        last_seg(s.subrange(0, s.len() - 1)).push(s[s.len() - 1])
    }
}

/// A suffix free of dots that begins right after a dot (or at the start)
/// is the last segment.
pub proof fn lemma_last_seg_at(s: Seq<char>, j: int)
    requires
        0 <= j <= s.len(),
        forall|k: int| j <= k < s.len() ==> s[k] != '.',
        j > 0 ==> s[j - 1] == '.',
    ensures
        last_seg(s) == s.subrange(j, s.len() as int),
    decreases s.len(),
{
    if s.len() == 0 {
        assert(s.subrange(0, 0) =~= s);
    } else if j == s.len() {
        assert(s[s.len() - 1] == '.');
        assert(s.subrange(j, s.len() as int) =~= Seq::<char>::empty());
    } else {
        assert(s[s.len() - 1] != '.');
        let t = s.subrange(0, s.len() - 1);
        assert forall|k: int| j <= k < t.len() implies t[k] != '.' by {
            assert(t[k] == s[k]);
        }
        if j > 0 {
            assert(t[j - 1] == s[j - 1]);
        }
        lemma_last_seg_at(t, j);
        assert(t.subrange(j, t.len() as int).push(s[s.len() - 1]) =~= s.subrange(
            j,
            s.len() as int,
        ));
    }
}

/// The first synthetic map-entry marker among `ts` carrying name `key`.
pub open spec fn find_map_marker(ts: Seq<MessageDescriptor>, key: Seq<char>) -> Option<
    MessageDescriptor,
>
    decreases ts.len(),
{
    if ts.len() == 0 {
        None
    } else if ts[0].map_entry && spec_named(ts[0].name, key) {
        Some(ts[0])
    } else {
        find_map_marker(ts.subrange(1, ts.len() as int), key)
    }
}

/// Whether an optional name is present and reads `key`.
pub open spec fn spec_named(n: Option<String>, key: Seq<char>) -> bool {
    match n {
        Some(s) => s@ == key,
        None => false,
    }
}

/// Marker entries known not to match can be skipped without changing the
/// lookup.
pub proof fn lemma_find_marker_skip(ts: Seq<MessageDescriptor>, key: Seq<char>, i: int)
    requires
        0 <= i <= ts.len(),
        forall|k: int|
            0 <= k < i ==> !((#[trigger] ts[k]).map_entry && spec_named(ts[k].name, key)),
    ensures
        find_map_marker(ts, key) == find_map_marker(ts.subrange(i, ts.len() as int), key),
    decreases i,
{
    if i == 0 {
        assert(ts.subrange(0, ts.len() as int) =~= ts);
    } else {
        let t = ts.subrange(1, ts.len() as int);
        lemma_find_marker_skip(t, key, i - 1);
        assert(t.subrange(i - 1, t.len() as int) =~= ts.subrange(i, ts.len() as int));
    }
}

/// The substituted map type of a field, when its referenced type's last
/// segment names a sibling map-entry marker: `Map<KeyType, ValueType>`
/// from the marker's two fields.
pub open spec fn spec_map_override(f: FieldDescriptor, nested: Seq<MessageDescriptor>) -> Option<
    Seq<char>,
> {
    match f.type_ref {
        None => None,
        Some(tn) => match find_map_marker(nested, last_seg(tn@)) {
            None => None,
            Some(t) => Some(
                "Map<"@ + spec_field_type(t.field@[0]) + ", "@ + spec_field_type(t.field@[1])
                    + ">"@,
            ),
        },
    }
}

/// What field `i` contributes to the direct field list of its message:
/// nothing when a oneof owns it; its line, with map sugar applied, when
/// none does.
pub open spec fn spec_direct_field_entry(
    fs: Seq<FieldDescriptor>,
    i: int,
    nested: Seq<MessageDescriptor>,
    ind: Seq<char>,
    base: Seq<i32>,
    syn: Syntax,
    tab: Option<SourceInfo>,
) -> Seq<char> {
    if fs[i].oneof_index is Some {
        Seq::empty()
    } else {
        let ov = spec_map_override(fs[i], nested);
        spec_field_line(fs[i], ov, ov is Some, ind, base.push(i as i32), syn, tab)
    }
}

/// The direct field lines from position `i` on.
pub open spec fn spec_direct_fields_from(
    fs: Seq<FieldDescriptor>,
    i: int,
    nested: Seq<MessageDescriptor>,
    ind: Seq<char>,
    base: Seq<i32>,
    syn: Syntax,
    tab: Option<SourceInfo>,
) -> Seq<char>
    decreases fs.len() - i,
{
    if i < 0 || i >= fs.len() {
        Seq::empty()
    } else {
        spec_direct_field_entry(fs, i, nested, ind, base, syn, tab) + spec_direct_fields_from(
            fs,
            i + 1,
            nested,
            ind,
            base,
            syn,
            tab,
        )
    }
}

/// What field `i` contributes inside oneof `j`: its line when `j` owns
/// it, nothing otherwise.
pub open spec fn spec_oneof_field_entry(
    fs: Seq<FieldDescriptor>,
    i: int,
    j: i32,
    ind: Seq<char>,
    base: Seq<i32>,
    syn: Syntax,
    tab: Option<SourceInfo>,
) -> Seq<char> {
    if fs[i].oneof_index == Some(j) {
        spec_field_line(fs[i], None, false, ind, base.push(i as i32), syn, tab)
    } else {
        Seq::empty()
    }
}

/// The field lines of oneof `j` from position `i` on.
pub open spec fn spec_oneof_fields_from(
    fs: Seq<FieldDescriptor>,
    i: int,
    j: i32,
    ind: Seq<char>,
    base: Seq<i32>,
    syn: Syntax,
    tab: Option<SourceInfo>,
) -> Seq<char>
    decreases fs.len() - i,
{
    if i < 0 || i >= fs.len() {
        Seq::empty()
    } else {
        spec_oneof_field_entry(fs, i, j, ind, base, syn, tab) + spec_oneof_fields_from(
            fs,
            i + 1,
            j,
            ind,
            base,
            syn,
            tab,
        )
    }
}

/// One whole oneof block: its own leading comment (recorded at
/// collection 8 of the message), the block header, the fields it owns in
/// original order, the closing brace.
pub open spec fn spec_oneof_block(
    m: MessageDescriptor,
    j: int,
    ind: Seq<char>,
    p: Seq<i32>,
    syn: Syntax,
    tab: Option<SourceInfo>,
) -> Seq<char> {
    spec_comment_block(tab, p.push(8).push(j as i32), ind) + ind + "oneof"@ + spec_decl_name(
        m.oneof_decl@[j].name,
    ) + " {\n"@ + spec_oneof_fields_from(m.field@, 0, j as i32, ind + "  "@, p.push(2), syn, tab)
        + ind + "}\n"@
}

/// The oneof blocks from declaration `j` on.
pub open spec fn spec_oneof_blocks_from(
    m: MessageDescriptor,
    j: int,
    ind: Seq<char>,
    p: Seq<i32>,
    syn: Syntax,
    tab: Option<SourceInfo>,
) -> Seq<char>
    decreases m.oneof_decl@.len() - j,
{
    if j < 0 || j >= m.oneof_decl@.len() {
        Seq::empty()
    } else {
        spec_oneof_block(m, j, ind, p, syn, tab) + spec_oneof_blocks_from(m, j + 1, ind, p, syn, tab)
    }
}

/// What nested type `i` contributes: nothing when it is a map-entry
/// marker (those are consumed by map sugar), its whole declaration
/// otherwise.
pub open spec fn spec_nested_entry(
    ts: Seq<MessageDescriptor>,
    i: int,
    ind: Seq<char>,
    base: Seq<i32>,
    syn: Syntax,
    tab: Option<SourceInfo>,
) -> Seq<char>
    decreases ts, 0int, ts.len() - i,
{
    if i < 0 || i >= ts.len() {
        Seq::empty()
    } else if ts[i].map_entry {
        Seq::empty()
    } else {
        spec_message_decl(ts[i], ind, base.push(i as i32), syn, tab)
    }
}

/// The nested message declarations from position `i` on.
pub open spec fn spec_nested_from(
    ts: Seq<MessageDescriptor>,
    i: int,
    ind: Seq<char>,
    base: Seq<i32>,
    syn: Syntax,
    tab: Option<SourceInfo>,
) -> Seq<char>
    decreases ts, 1int, ts.len() - i,
{
    if i < 0 || i >= ts.len() {
        Seq::empty()
    } else {
        spec_nested_entry(ts, i, ind, base, syn, tab) + spec_nested_from(
            ts,
            i + 1,
            ind,
            base,
            syn,
            tab,
        )
    }
}

/// One whole message declaration, in the fixed body order: direct
/// fields, oneof blocks, surviving nested messages, nested enums,
/// reserved ranges, reserved names.
#[verifier::opaque]
pub open spec fn spec_message_decl(
    m: MessageDescriptor,
    ind: Seq<char>,
    p: Seq<i32>,
    syn: Syntax,
    tab: Option<SourceInfo>,
) -> Seq<char>
    decreases m, 2int, 0int,
{
    spec_major_prefix(tab, p, ind) + ind + "message"@ + spec_decl_name(m.name) + " {\n"@
        + spec_direct_fields_from(m.field@, 0, m.nested_type@, ind + "  "@, p.push(2), syn, tab)
        + spec_oneof_blocks_from(m, 0, ind + "  "@, p, syn, tab) + spec_nested_from(
        m.nested_type@,
        0,
        ind + "  "@,
        p.push(3),
        syn,
        tab,
    ) + spec_enums_from(m.enum_type@, 0, ind + "  "@, p.push(4), tab) + spec_reserved_ranges_line(
        m.reserved_range@,
        ind + "  "@,
    ) + spec_reserved_names_line(m.reserved_name@, ind + "  "@) + ind + "}\n"@
}

/// The import lines from position `i` on.
pub open spec fn spec_deps_from(ds: Seq<String>, i: int, ind: Seq<char>) -> Seq<char>
    decreases ds.len() - i,
{
    if i < 0 || i >= ds.len() {
        Seq::empty()
    } else {
        ind + "import \""@ + ds[i]@ + "\";\n"@ + spec_deps_from(ds, i + 1, ind)
    }
}

/// The top-level message declarations from position `i` on; top-level
/// messages are collection 4 of a file.
pub open spec fn spec_messages_from(
    ms: Seq<MessageDescriptor>,
    i: int,
    ind: Seq<char>,
    base: Seq<i32>,
    syn: Syntax,
    tab: Option<SourceInfo>,
) -> Seq<char>
    decreases ms.len() - i,
{
    if i < 0 || i >= ms.len() {
        Seq::empty()
    } else {
        spec_message_decl(ms[i], ind, base.push(i as i32), syn, tab) + spec_messages_from(
            ms,
            i + 1,
            ind,
            base,
            syn,
            tab,
        )
    }
}

/// The service declarations from position `i` on.
pub open spec fn spec_services_from(
    ss: Seq<crate::descriptor::ServiceDescriptor>,
    i: int,
    ind: Seq<char>,
    base: Seq<i32>,
    tab: Option<SourceInfo>,
) -> Seq<char>
    decreases ss.len() - i,
{
    if i < 0 || i >= ss.len() {
        Seq::empty()
    } else {
        spec_service_decl(ss[i], ind, base.push(i as i32), tab) + spec_services_from(
            ss,
            i + 1,
            ind,
            base,
            tab,
        )
    }
}

/// One whole file: syntax line, package line, import lines, then every
/// message, enum and service, each category in turn.
pub open spec fn spec_file_text(
    f: FileDescriptor,
    ind: Seq<char>,
    p: Seq<i32>,
    syn: Syntax,
    tab: Option<SourceInfo>,
) -> Seq<char> {
    (match f.syntax {
        Some(s) => ind + "syntax = \""@ + s@ + "\";\n\n"@,
        None => Seq::empty(),
    }) + (match f.package {
        Some(s) => ind + "package "@ + s@ + ";\n\n"@,
        None => Seq::empty(),
    }) + spec_deps_from(f.dependency@, 0, ind) + spec_messages_from(
        f.message_type@,
        0,
        ind,
        p.push(4),
        syn,
        tab,
    ) + spec_enums_from(f.enum_type@, 0, ind, p.push(5), tab) + spec_services_from(
        f.service@,
        0,
        ind,
        p.push(6),
        tab,
    )
}

/// The syntax version a file's declaration selects: the newer one only
/// when it says so exactly, the older one otherwise and by default.
pub open spec fn spec_syntax_of(s: Option<String>) -> Syntax {
    match s {
        Some(x) => if x@ == "proto3"@ {
            Syntax::Proto3
        } else {
            Syntax::Proto2
        },
        None => Syntax::Proto2,
    }
}

} // verus!
