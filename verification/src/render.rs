//! The text emitter: one rendering function per node kind, each proved
//! to append exactly the text the spec functions of `text_spec` define.

use vstd::prelude::*;
use vstd::string::{StrSliceExecFns, StringExecFns};
use crate::descriptor::{
    EnumDescriptor, EnumValueDescriptor, FieldDescriptor, FileDescriptor, MessageDescriptor,
    MethodDescriptor, ReservedRange, ServiceDescriptor, SourceInfo, Syntax, wf_enum, wf_file,
    wf_message, wf_service,
};
use crate::generator::Generator;
use crate::numeral::append_i32_dec;
use crate::text_spec::{
    find_map_marker, last_seg, lemma_find_marker_skip, lemma_last_seg_at, spec_decl_name,
    spec_direct_fields_from, spec_enum_decl, spec_enum_value_line, spec_enum_values_from,
    spec_enums_from, spec_field_line, spec_field_type, spec_file_text, spec_major_prefix,
    spec_map_override, spec_messages_from, spec_method_line, spec_methods_from, spec_named,
    spec_nested_from, spec_oneof_block, spec_oneof_blocks_from, spec_oneof_fields_from,
    spec_opt_num, spec_ranges_from, spec_reserved_names_line, spec_reserved_ranges_line,
    spec_service_decl, spec_services_from, spec_syntax_of, spec_type_keyword,
};

verus! {

broadcast use crate::util::lemma_seq_assoc_auto, crate::util::lemma_seq_empty_right_auto,
    crate::util::lemma_seq_empty_left_auto;

/// The view of an optional borrowed type substitution.
pub open spec fn ov_view(o: Option<&str>) -> Option<Seq<char>> {
    match o {
        Some(t) => Some(t@),
        None => None,
    }
}

/// The keyword of one primitive type code; empty outside the valid range.
fn type_keyword(c: i32) -> (r: &'static str)
    ensures
        r@ == spec_type_keyword(c as int),
{
    let r: &'static str = if c == 1 {
        "double"
    } else if c == 2 {
        "float"
    } else if c == 3 {
        "int64"
    } else if c == 4 {
        "uint64"
    } else if c == 5 {
        "int32"
    } else if c == 6 {
        "fixed64"
    } else if c == 7 {
        "fixed32"
    } else if c == 8 {
        "bool"
    } else if c == 9 {
        "string"
    } else if c == 10 {
        "group"
    } else if c == 11 {
        "message"
    } else if c == 12 {
        "bytes"
    } else if c == 13 {
        "uint32"
    } else if c == 14 {
        "enum"
    } else if c == 15 {
        "sfixed32"
    } else if c == 16 {
        "sfixed64"
    } else if c == 17 {
        "sint32"
    } else if c == 18 {
        "sint64"
    } else {
        ""
    };
    proof {
        reveal_strlit("");
        assert(""@ =~= Seq::<char>::empty());
    }
    r
}

/// Appends the rendered type of a field: its named reference verbatim
/// when it carries one, else its primitive keyword.
pub fn write_field_type(buf: &mut String, field: &FieldDescriptor)
    ensures
        final(buf)@ == old(buf)@ + spec_field_type(*field),
{
    match field.type_ref.as_ref() {
        Some(tn) => {
            buf.append(tn.as_str());
        },
        None => {
            match field.type_code {
                Some(c) => {
                    buf.append(type_keyword(c));
                },
                None => {},
            }
        },
    }
}

/// Appends the numeral of an optional number; nothing when absent.
fn append_opt_num(buf: &mut String, o: Option<i32>)
    ensures
        final(buf)@ == old(buf)@ + spec_opt_num(o),
{
    match o {
        Some(v) => {
            append_i32_dec(buf, v);
        },
        None => {},
    }
}

/// Renders one field line. `type_override` substitutes the rendered type
/// and `suppress_label` drops the cardinality keyword; both serve the
/// map-sugar reconstruction.
#[verifier::rlimit(60)]
#[verifier::spinoff_prover]
pub fn build_field(
    gen: &mut Generator,
    f: &FieldDescriptor,
    type_override: Option<&str>,
    suppress_label: bool,
)
    ensures
        final(gen).frame() == old(gen).frame(),
        final(gen).buf@ == old(gen).buf@ + spec_field_line(
            *f,
            ov_view(type_override),
            suppress_label,
            old(gen).indent@,
            old(gen).path@,
            old(gen).syntax,
            old(gen).tab(),
        ),
{
    let _found = gen.write_leading_comment();
    gen.write_indent();
    if !suppress_label {
        match f.label {
            Some(l) => {
                if l == 1 {
                    if gen.syntax == Syntax::Proto2 {
                        gen.write("optional ");
                    }
                } else if l == 2 {
                    gen.write("required ");
                } else if l == 3 {
                    gen.write("repeated ");
                }
            },
            None => {},
        }
    }
    match type_override {
        Some(t) => {
            gen.write(t);
        },
        None => {
            write_field_type(&mut gen.buf, f);
        },
    }
    gen.write(" ");
    match f.name.as_ref() {
        Some(n) => {
            gen.write(n.as_str());
        },
        None => {},
    }
    gen.write(" = ");
    append_opt_num(&mut gen.buf, f.number);
    gen.write(";\n");
}

/// Renders one enum value line.
pub fn build_enum_value(gen: &mut Generator, v: &EnumValueDescriptor)
    ensures
        final(gen).frame() == old(gen).frame(),
        final(gen).buf@ == old(gen).buf@ + spec_enum_value_line(
            *v,
            old(gen).indent@,
            old(gen).path@,
            old(gen).tab(),
        ),
{
    let _found = gen.write_leading_comment();
    gen.write_indent();
    match v.name.as_ref() {
        Some(n) => {
            gen.write(n.as_str());
        },
        None => {},
    }
    gen.write(" = ");
    append_opt_num(&mut gen.buf, v.number);
    gen.write(";\n");
}

/// Renders one RPC method line, with the `stream` keyword on either side
/// only where the corresponding flag is set.
pub fn build_method(gen: &mut Generator, m: &MethodDescriptor)
    ensures
        final(gen).frame() == old(gen).frame(),
        final(gen).buf@ == old(gen).buf@ + spec_method_line(
            *m,
            old(gen).indent@,
            old(gen).path@,
            old(gen).tab(),
        ),
{
    let _found = gen.write_leading_comment();
    gen.write_indent();
    match m.name.as_ref() {
        Some(n) => {
            gen.write("rpc ");
            gen.write(n.as_str());
        },
        None => {},
    }
    gen.write("(");
    match m.client_streaming {
        Some(true) => {
            gen.write("stream ");
        },
        _ => {},
    }
    match m.input_type.as_ref() {
        Some(t) => {
            gen.write(t.as_str());
        },
        None => {},
    }
    gen.write(") returns (");
    match m.server_streaming {
        Some(true) => {
            gen.write("stream ");
        },
        _ => {},
    }
    match m.output_type.as_ref() {
        Some(t) => {
            gen.write(t.as_str());
        },
        None => {},
    }
    gen.write(");\n");
}

/// Renders the reserved-ranges line of a message or enum; nothing when
/// no range is reserved.
#[verifier::loop_isolation(false)]
pub fn write_reserved_ranges(gen: &mut Generator, rs: &Vec<ReservedRange>)
    ensures
        final(gen).frame() == old(gen).frame(),
        final(gen).buf@ == old(gen).buf@ + spec_reserved_ranges_line(rs@, old(gen).indent@),
{
    if rs.len() == 0 {
        return ;
    }
    gen.write_indent();
    gen.write("reserved ");
    let ghost b0 = gen.buf@;
    let mut i: usize = 0;
    while i < rs.len()
        invariant
            i <= rs@.len(),
            gen.frame() == old(gen).frame(),
            gen.buf@ + spec_ranges_from(rs@, i as int) == b0 + spec_ranges_from(rs@, 0),
        decreases rs@.len() - i,
    {
        if i > 0 {
            gen.write(", ");
        }
        match rs[i].start {
            Some(s) => {
                append_i32_dec(&mut gen.buf, s);
            },
            None => {},
        }
        gen.write(" to ");
        match rs[i].end {
            Some(e) => {
                append_i32_dec(&mut gen.buf, e);
            },
            None => {
                gen.write("max");
            },
        }
        i = i + 1;
    }
    gen.write(";\n");
}

/// Renders the reserved-names line of a message or enum; nothing when no
/// name is reserved.
#[verifier::loop_isolation(false)]
pub fn write_reserved_names(gen: &mut Generator, ns: &Vec<String>)
    ensures
        final(gen).frame() == old(gen).frame(),
        final(gen).buf@ == old(gen).buf@ + spec_reserved_names_line(ns@, old(gen).indent@),
{
    if ns.len() == 0 {
        return ;
    }
    gen.write_indent();
    gen.write("reserved ");
    let ghost b0 = gen.buf@;
    let mut i: usize = 0;
    while i < ns.len()
        invariant
            i <= ns@.len(),
            gen.frame() == old(gen).frame(),
            gen.buf@ + crate::text_spec::spec_names_from(ns@, i as int) == b0
                + crate::text_spec::spec_names_from(ns@, 0),
        decreases ns@.len() - i,
    {
        if i > 0 {
            gen.write(", ");
        }
        gen.write("\"");
        gen.write(ns[i].as_str());
        gen.write("\"");
        i = i + 1;
    }
    gen.write(";\n");
}

/// Writes what opens a major declaration: its leading comment or a
/// blank separator, the indented keyword and optional name, the brace.
fn write_major_header(gen: &mut Generator, keyword: &str, name: &Option<String>)
    ensures
        final(gen).ctx() == old(gen).ctx(),
        final(gen).indent@ == old(gen).indent@ + "  "@,
        final(gen).buf@ == old(gen).buf@ + spec_major_prefix(
            old(gen).tab(),
            old(gen).path@,
            old(gen).indent@,
        ) + old(gen).indent@ + keyword@ + spec_decl_name(*name) + " {\n"@,
{
    let found = gen.write_leading_comment();
    if !found {
        gen.write("\n");
    }
    gen.write_indent();
    gen.write(keyword);
    match name.as_ref() {
        Some(n) => {
            gen.write(" ");
            gen.write(n.as_str());
        },
        None => {},
    }
    gen.open_block();
}

/// Renders one whole enum declaration.
#[verifier::rlimit(100)]
#[verifier::spinoff_prover]
#[verifier::loop_isolation(false)]
pub fn build_enum(gen: &mut Generator, e: &EnumDescriptor)
    requires
        wf_enum(*e),
    ensures
        final(gen).frame() == old(gen).frame(),
        final(gen).buf@ == old(gen).buf@ + spec_enum_decl(
            *e,
            old(gen).indent@,
            old(gen).path@,
            old(gen).tab(),
        ),
{
    write_major_header(gen, "enum", &e.name);
    proof {
        reveal_strlit("  ");
    }
    gen.path.push(2);
    let ghost b0 = gen.buf@;
    let ghost ind2 = old(gen).indent@ + "  "@;
    let ghost base2 = old(gen).path@.push(2);
    let mut i: usize = 0;
    while i < e.value.len()
        invariant
            i <= e.value@.len(),
            gen.syntax == old(gen).syntax,
            gen.tab() == old(gen).tab(),
            gen.path@ == base2,
            gen.indent@ == ind2,
            gen.buf@ + spec_enum_values_from(e.value@, i as int, ind2, base2, gen.tab()) == b0
                + spec_enum_values_from(e.value@, 0, ind2, base2, gen.tab()),
        decreases e.value@.len() - i,
    {
        gen.path.push(i as i32);
        build_enum_value(gen, &e.value[i]);
        gen.path.pop();
        proof {
            assert(base2.push(i as i32).drop_last() =~= base2);
        }
        i = i + 1;
    }
    gen.path.pop();
    proof {
        assert(old(gen).path@.push(2).drop_last() =~= old(gen).path@);
    }
    write_reserved_ranges(gen, &e.reserved_range);
    write_reserved_names(gen, &e.reserved_name);
    gen.close_block();
    proof {
        assert(ind2.subrange(0, ind2.len() - 2) =~= old(gen).indent@);
    }
}

/// Renders one whole service declaration.
#[verifier::rlimit(100)]
#[verifier::spinoff_prover]
#[verifier::loop_isolation(false)]
pub fn build_service(gen: &mut Generator, s: &ServiceDescriptor)
    requires
        wf_service(*s),
    ensures
        final(gen).frame() == old(gen).frame(),
        final(gen).buf@ == old(gen).buf@ + spec_service_decl(
            *s,
            old(gen).indent@,
            old(gen).path@,
            old(gen).tab(),
        ),
{
    write_major_header(gen, "service", &s.name);
    proof {
        reveal_strlit("  ");
    }
    gen.path.push(2);
    let ghost b0 = gen.buf@;
    let ghost ind2 = old(gen).indent@ + "  "@;
    let ghost base2 = old(gen).path@.push(2);
    let mut i: usize = 0;
    while i < s.method.len()
        invariant
            i <= s.method@.len(),
            gen.syntax == old(gen).syntax,
            gen.tab() == old(gen).tab(),
            gen.path@ == base2,
            gen.indent@ == ind2,
            gen.buf@ + spec_methods_from(s.method@, i as int, ind2, base2, gen.tab()) == b0
                + spec_methods_from(s.method@, 0, ind2, base2, gen.tab()),
        decreases s.method@.len() - i,
    {
        gen.path.push(i as i32);
        build_method(gen, &s.method[i]);
        gen.path.pop();
        proof {
            assert(base2.push(i as i32).drop_last() =~= base2);
        }
        i = i + 1;
    }
    gen.path.pop();
    proof {
        assert(old(gen).path@.push(2).drop_last() =~= old(gen).path@);
    }
    gen.close_block();
    proof {
        assert(ind2.subrange(0, ind2.len() - 2) =~= old(gen).indent@);
    }
}

/// The last dotted path segment of a name: what follows the final dot,
/// or the whole name when it has none.
fn last_segment(s: &str) -> (r: &str)
    ensures
        r@ == last_seg(s@),
{
    let n: usize = s.unicode_len();
    let mut j: usize = n;
    while j > 0 && s.get_char(j - 1) != '.'
        invariant
            j <= n,
            n == s@.len(),
            forall|k: int| j <= k < n ==> s@[k] != '.',
        decreases j,
    {
        j = j - 1;
    }
    proof {
        lemma_last_seg_at(s@, j as int);
    }
    s.substring_char(j, n)
}

/// Index of the first map-entry marker among `ts` named `key`, if any.
#[verifier::loop_isolation(false)]
fn find_marker(ts: &Vec<MessageDescriptor>, key: &str) -> (r: Option<usize>)
    ensures
        match r {
            Some(k) => k < ts@.len() && find_map_marker(ts@, key@) == Some(ts@[k as int])
            && ts@[k as int].map_entry && spec_named(ts@[k as int].name, key@),
            None => find_map_marker(ts@, key@) is None,
        },
{
    let mut i: usize = 0;
    while i < ts.len()
        invariant
            i <= ts@.len(),
            forall|k: int|
                0 <= k < i ==> !((#[trigger] ts@[k]).map_entry && spec_named(ts@[k].name, key@)),
        decreases ts@.len() - i,
    {
        if ts[i].map_entry {
            match ts[i].name.as_ref() {
                Some(nm) => {
                    let keyo: String = key.to_owned();
                    if *nm == keyo {
                        proof {
                            lemma_find_marker_skip(ts@, key@, i as int);
                            let sub = ts@.subrange(i as int, ts@.len() as int);
                            assert(sub[0] == ts@[i as int]);
                            assert(sub[0].map_entry && spec_named(sub[0].name, key@));
                            assert(find_map_marker(sub, key@) == Some(sub[0]));
                        }
                        return Some(i);
                    }
                },
                None => {},
            }
        }
        i = i + 1;
    }
    proof {
        lemma_find_marker_skip(ts@, key@, ts@.len() as int);
        assert(ts@.subrange(ts@.len() as int, ts@.len() as int) =~= Seq::<
            MessageDescriptor,
        >::empty());
    }
    None
}

/// Renders one oneof block: its leading comment, the header with the
/// oneof's name, the fields it owns in original order, the brace.
#[verifier::rlimit(100)]
#[verifier::spinoff_prover]
#[verifier::loop_isolation(false)]
pub fn build_oneof(gen: &mut Generator, m: &MessageDescriptor, j: usize)
    requires
        wf_message(*m),
        j < m.oneof_decl@.len(),
    ensures
        final(gen).frame() == old(gen).frame(),
        final(gen).buf@ == old(gen).buf@ + spec_oneof_block(
            *m,
            j as int,
            old(gen).indent@,
            old(gen).path@,
            old(gen).syntax,
            old(gen).tab(),
        ),
{
    gen.path.push(8);
    gen.path.push(j as i32);
    let _found = gen.write_leading_comment();
    gen.path.pop();
    gen.path.pop();
    proof {
        assert(old(gen).path@.push(8).push(j as i32).drop_last() =~= old(gen).path@.push(8));
        assert(old(gen).path@.push(8).drop_last() =~= old(gen).path@);
    }
    gen.write_indent();
    gen.write("oneof");
    match m.oneof_decl[j].name.as_ref() {
        Some(n) => {
            gen.write(" ");
            gen.write(n.as_str());
        },
        None => {},
    }
    gen.write(" {\n");
    gen.inc_indent();
    proof {
        reveal_strlit("  ");
    }
    gen.path.push(2);
    let ghost b0 = gen.buf@;
    let ghost ind3 = old(gen).indent@ + "  "@;
    let ghost base2 = old(gen).path@.push(2);
    let ji: i32 = j as i32;
    let mut i: usize = 0;
    while i < m.field.len()
        invariant
            i <= m.field@.len(),
            gen.syntax == old(gen).syntax,
            gen.tab() == old(gen).tab(),
            gen.path@ == base2,
            gen.indent@ == ind3,
            gen.buf@ + spec_oneof_fields_from(
                m.field@,
                i as int,
                ji,
                ind3,
                base2,
                old(gen).syntax,
                old(gen).tab(),
            ) == b0 + spec_oneof_fields_from(
                m.field@,
                0,
                ji,
                ind3,
                base2,
                old(gen).syntax,
                old(gen).tab(),
            ),
        decreases m.field@.len() - i,
    {
        let take: bool = match m.field[i].oneof_index {
            Some(oi) => oi == ji,
            None => false,
        };
        if take {
            gen.path.push(i as i32);
            build_field(gen, &m.field[i], None, false);
            gen.path.pop();
            proof {
                assert(base2.push(i as i32).drop_last() =~= base2);
            }
        }
        i = i + 1;
    }
    gen.path.pop();
    proof {
        assert(base2.drop_last() =~= old(gen).path@);
    }
    gen.dec_indent();
    gen.write_indent();
    gen.write("}\n");
    proof {
        assert(ind3.subrange(0, ind3.len() - 2) =~= old(gen).indent@);
    }
}

/// Renders one whole message declaration, in the fixed body order:
/// direct fields with map sugar, oneof blocks, surviving nested
/// messages, nested enums, reserved ranges, reserved names.
/// Renders the direct field list of a message: every field no oneof
/// owns, in original order, with map sugar applied.
#[verifier::rlimit(100)]
#[verifier::spinoff_prover]
#[verifier::loop_isolation(false)]
fn render_direct_fields(gen: &mut Generator, m: &MessageDescriptor)
    requires
        wf_message(*m),
    ensures
        final(gen).frame() == old(gen).frame(),
        final(gen).buf@ == old(gen).buf@ + spec_direct_fields_from(
            m.field@,
            0,
            m.nested_type@,
            old(gen).indent@,
            old(gen).path@.push(2),
            old(gen).syntax,
            old(gen).tab(),
        ),
{
    let ghost ind2 = old(gen).indent@;
    let ghost base2 = old(gen).path@.push(2);
    gen.path.push(2);
    let ghost bf = gen.buf@;
    let mut i: usize = 0;
    while i < m.field.len()
        invariant
            i <= m.field@.len(),
            gen.syntax == old(gen).syntax,
            gen.tab() == old(gen).tab(),
            gen.path@ == base2,
            gen.indent@ == ind2,
            gen.buf@ + spec_direct_fields_from(
                m.field@,
                i as int,
                m.nested_type@,
                ind2,
                base2,
                old(gen).syntax,
                old(gen).tab(),
            ) == bf + spec_direct_fields_from(
                m.field@,
                0,
                m.nested_type@,
                ind2,
                base2,
                old(gen).syntax,
                old(gen).tab(),
            ),
        decreases m.field@.len() - i,
    {
        let f = &m.field[i];
        if f.oneof_index.is_none() {
            gen.path.push(i as i32);
            match f.type_ref.as_ref() {
                Some(tn) => {
                    let seg: &str = last_segment(tn.as_str());
                    match find_marker(&m.nested_type, seg) {
                        Some(k) => {
                            let t = &m.nested_type[k];
                            let mut map_type: String = String::new();
                            map_type.append("Map<");
                            write_field_type(&mut map_type, &t.field[0]);
                            map_type.append(", ");
                            write_field_type(&mut map_type, &t.field[1]);
                            map_type.append(">");
                            proof {
                                assert(map_type@ == "Map<"@ + spec_field_type(t.field@[0]) + ", "@
                                    + spec_field_type(t.field@[1]) + ">"@);
                                assert(spec_map_override(*f, m.nested_type@) == Some(map_type@));
                            }
                            build_field(gen, f, Some(map_type.as_str()), true);
                        },
                        None => {
                            proof {
                                assert(spec_map_override(*f, m.nested_type@) is None);
                            }
                            build_field(gen, f, None, false);
                        },
                    }
                },
                None => {
                    build_field(gen, f, None, false);
                },
            }
            gen.path.pop();
            proof {
                assert(base2.push(i as i32).drop_last() =~= base2);
            }
        }
        i = i + 1;
    }
    gen.path.pop();
    proof {
        assert(base2.drop_last() =~= old(gen).path@);
    }
}

/// Renders every oneof block of a message, in declaration order.
#[verifier::loop_isolation(false)]
fn render_oneofs(gen: &mut Generator, m: &MessageDescriptor)
    requires
        wf_message(*m),
    ensures
        final(gen).frame() == old(gen).frame(),
        final(gen).buf@ == old(gen).buf@ + spec_oneof_blocks_from(
            *m,
            0,
            old(gen).indent@,
            old(gen).path@,
            old(gen).syntax,
            old(gen).tab(),
        ),
{
    let ghost bo = gen.buf@;
    let mut jx: usize = 0;
    while jx < m.oneof_decl.len()
        invariant
            jx <= m.oneof_decl@.len(),
            gen.syntax == old(gen).syntax,
            gen.tab() == old(gen).tab(),
            gen.path@ == old(gen).path@,
            gen.indent@ == old(gen).indent@,
            gen.buf@ + spec_oneof_blocks_from(
                *m,
                jx as int,
                old(gen).indent@,
                old(gen).path@,
                old(gen).syntax,
                old(gen).tab(),
            ) == bo + spec_oneof_blocks_from(
                *m,
                0,
                old(gen).indent@,
                old(gen).path@,
                old(gen).syntax,
                old(gen).tab(),
            ),
        decreases m.oneof_decl@.len() - jx,
    {
        build_oneof(gen, m, jx);
        jx = jx + 1;
    }
}

/// Renders the nested message declarations of a message, skipping the
/// map-entry markers consumed by map sugar.
#[verifier::rlimit(100)]
#[verifier::spinoff_prover]
#[verifier::loop_isolation(false)]
fn render_nested(gen: &mut Generator, m: &MessageDescriptor)
    requires
        wf_message(*m),
    ensures
        final(gen).frame() == old(gen).frame(),
        final(gen).buf@ == old(gen).buf@ + spec_nested_from(
            m.nested_type@,
            0,
            old(gen).indent@,
            old(gen).path@.push(3),
            old(gen).syntax,
            old(gen).tab(),
        ),
    decreases *m, 0int,
{
    let ghost ind2 = old(gen).indent@;
    let ghost base3 = old(gen).path@.push(3);
    gen.path.push(3);
    let ghost bn = gen.buf@;
    let mut i: usize = 0;
    while i < m.nested_type.len()
        invariant
            i <= m.nested_type@.len(),
            gen.syntax == old(gen).syntax,
            gen.tab() == old(gen).tab(),
            gen.path@ == base3,
            gen.indent@ == ind2,
            gen.buf@ + spec_nested_from(
                m.nested_type@,
                i as int,
                ind2,
                base3,
                old(gen).syntax,
                old(gen).tab(),
            ) == bn + spec_nested_from(
                m.nested_type@,
                0,
                ind2,
                base3,
                old(gen).syntax,
                old(gen).tab(),
            ),
        decreases m.nested_type@.len() - i,
    {
        proof {
            assert(spec_nested_from(
                m.nested_type@,
                i as int,
                ind2,
                base3,
                old(gen).syntax,
                old(gen).tab(),
            ) == crate::text_spec::spec_nested_entry(
                m.nested_type@,
                i as int,
                ind2,
                base3,
                old(gen).syntax,
                old(gen).tab(),
            ) + spec_nested_from(
                m.nested_type@,
                i + 1,
                ind2,
                base3,
                old(gen).syntax,
                old(gen).tab(),
            ));
        }
        if !m.nested_type[i].map_entry {
            gen.path.push(i as i32);
            build_message(gen, &m.nested_type[i]);
            gen.path.pop();
            proof {
                assert(base3.push(i as i32).drop_last() =~= base3);
                assert(crate::text_spec::spec_nested_entry(
                    m.nested_type@,
                    i as int,
                    ind2,
                    base3,
                    old(gen).syntax,
                    old(gen).tab(),
                ) == crate::text_spec::spec_message_decl(
                    m.nested_type@[i as int],
                    ind2,
                    base3.push(i as i32),
                    old(gen).syntax,
                    old(gen).tab(),
                ));
            }
        }
        i = i + 1;
    }
    gen.path.pop();
    proof {
        assert(base3.drop_last() =~= old(gen).path@);
    }
}

/// Renders the nested enum declarations of a message.
#[verifier::rlimit(100)]
#[verifier::spinoff_prover]
#[verifier::loop_isolation(false)]
fn render_msg_enums(gen: &mut Generator, m: &MessageDescriptor)
    requires
        wf_message(*m),
    ensures
        final(gen).frame() == old(gen).frame(),
        final(gen).buf@ == old(gen).buf@ + spec_enums_from(
            m.enum_type@,
            0,
            old(gen).indent@,
            old(gen).path@.push(4),
            old(gen).tab(),
        ),
{
    let ghost ind2 = old(gen).indent@;
    let ghost base4 = old(gen).path@.push(4);
    gen.path.push(4);
    let ghost be = gen.buf@;
    let mut i: usize = 0;
    while i < m.enum_type.len()
        invariant
            i <= m.enum_type@.len(),
            gen.syntax == old(gen).syntax,
            gen.tab() == old(gen).tab(),
            gen.path@ == base4,
            gen.indent@ == ind2,
            gen.buf@ + spec_enums_from(m.enum_type@, i as int, ind2, base4, old(gen).tab()) == be
                + spec_enums_from(m.enum_type@, 0, ind2, base4, old(gen).tab()),
        decreases m.enum_type@.len() - i,
    {
        gen.path.push(i as i32);
        build_enum(gen, &m.enum_type[i]);
        gen.path.pop();
        proof {
            assert(base4.push(i as i32).drop_last() =~= base4);
        }
        i = i + 1;
    }
    gen.path.pop();
    proof {
        assert(base4.drop_last() =~= old(gen).path@);
    }
}

/// Renders one whole message declaration, in the fixed body order:
/// direct fields with map sugar, oneof blocks, surviving nested
/// messages, nested enums, reserved ranges, reserved names.
#[verifier::rlimit(100)]
#[verifier::spinoff_prover]
pub fn build_message(gen: &mut Generator, m: &MessageDescriptor)
    requires
        wf_message(*m),
    ensures
        final(gen).frame() == old(gen).frame(),
        final(gen).buf@ == old(gen).buf@ + crate::text_spec::spec_message_decl(
            *m,
            old(gen).indent@,
            old(gen).path@,
            old(gen).syntax,
            old(gen).tab(),
        ),
    decreases *m, 1int,
{
    write_major_header(gen, "message", &m.name);
    proof {
        reveal_strlit("  ");
    }
    render_direct_fields(gen, m);
    render_oneofs(gen, m);
    render_nested(gen, m);
    render_msg_enums(gen, m);
    write_reserved_ranges(gen, &m.reserved_range);
    write_reserved_names(gen, &m.reserved_name);
    gen.close_block();
    proof {
        reveal(crate::text_spec::spec_message_decl);
        let ghost ind2 = old(gen).indent@ + "  "@;
        assert(ind2.subrange(0, ind2.len() - 2) =~= old(gen).indent@);
    }
}

/// Writes the import lines of a file, one per dependency.
#[verifier::rlimit(100)]
#[verifier::spinoff_prover]
#[verifier::loop_isolation(false)]
fn render_imports(gen: &mut Generator, deps: &Vec<String>)
    requires
        crate::descriptor::fits_i32(deps@.len()),
    ensures
        final(gen).frame() == old(gen).frame(),
        final(gen).buf@ == old(gen).buf@ + crate::text_spec::spec_deps_from(
            deps@,
            0,
            old(gen).indent@,
        ),
{
    let ghost base3 = old(gen).path@.push(3);
    gen.path.push(3);
    let ghost b0 = gen.buf@;
    let mut i: usize = 0;
    while i < deps.len()
        invariant
            i <= deps@.len(),
            gen.syntax == old(gen).syntax,
            gen.tab() == old(gen).tab(),
            gen.path@ == base3,
            gen.indent@ == old(gen).indent@,
            gen.buf@ + crate::text_spec::spec_deps_from(deps@, i as int, old(gen).indent@) == b0
                + crate::text_spec::spec_deps_from(deps@, 0, old(gen).indent@),
        decreases deps@.len() - i,
    {
        gen.path.push(i as i32);
        gen.write_indent();
        gen.write("import \"");
        gen.write(deps[i].as_str());
        gen.write("\";\n");
        gen.path.pop();
        proof {
            assert(base3.push(i as i32).drop_last() =~= base3);
        }
        i = i + 1;
    }
    gen.path.pop();
    proof {
        assert(base3.drop_last() =~= old(gen).path@);
    }
}

/// Renders the top-level message declarations of a file.
#[verifier::rlimit(100)]
#[verifier::spinoff_prover]
#[verifier::loop_isolation(false)]
fn render_file_messages(gen: &mut Generator, f: &FileDescriptor)
    requires
        wf_file(*f),
    ensures
        final(gen).frame() == old(gen).frame(),
        final(gen).buf@ == old(gen).buf@ + spec_messages_from(
            f.message_type@,
            0,
            old(gen).indent@,
            old(gen).path@.push(4),
            old(gen).syntax,
            old(gen).tab(),
        ),
{
    let ghost base4 = old(gen).path@.push(4);
    gen.path.push(4);
    let ghost b0 = gen.buf@;
    let mut i: usize = 0;
    while i < f.message_type.len()
        invariant
            i <= f.message_type@.len(),
            gen.syntax == old(gen).syntax,
            gen.tab() == old(gen).tab(),
            gen.path@ == base4,
            gen.indent@ == old(gen).indent@,
            gen.buf@ + spec_messages_from(
                f.message_type@,
                i as int,
                old(gen).indent@,
                base4,
                old(gen).syntax,
                old(gen).tab(),
            ) == b0 + spec_messages_from(
                f.message_type@,
                0,
                old(gen).indent@,
                base4,
                old(gen).syntax,
                old(gen).tab(),
            ),
        decreases f.message_type@.len() - i,
    {
        gen.path.push(i as i32);
        build_message(gen, &f.message_type[i]);
        gen.path.pop();
        proof {
            assert(base4.push(i as i32).drop_last() =~= base4);
        }
        i = i + 1;
    }
    gen.path.pop();
    proof {
        assert(base4.drop_last() =~= old(gen).path@);
    }
}

/// Renders the top-level enum declarations of a file.
#[verifier::rlimit(100)]
#[verifier::spinoff_prover]
#[verifier::loop_isolation(false)]
fn render_file_enums(gen: &mut Generator, f: &FileDescriptor)
    requires
        wf_file(*f),
    ensures
        final(gen).frame() == old(gen).frame(),
        final(gen).buf@ == old(gen).buf@ + spec_enums_from(
            f.enum_type@,
            0,
            old(gen).indent@,
            old(gen).path@.push(5),
            old(gen).tab(),
        ),
{
    let ghost base5 = old(gen).path@.push(5);
    gen.path.push(5);
    let ghost b0 = gen.buf@;
    let mut i: usize = 0;
    while i < f.enum_type.len()
        invariant
            i <= f.enum_type@.len(),
            gen.syntax == old(gen).syntax,
            gen.tab() == old(gen).tab(),
            gen.path@ == base5,
            gen.indent@ == old(gen).indent@,
            gen.buf@ + spec_enums_from(
                f.enum_type@,
                i as int,
                old(gen).indent@,
                base5,
                old(gen).tab(),
            ) == b0 + spec_enums_from(f.enum_type@, 0, old(gen).indent@, base5, old(gen).tab()),
        decreases f.enum_type@.len() - i,
    {
        gen.path.push(i as i32);
        build_enum(gen, &f.enum_type[i]);
        gen.path.pop();
        proof {
            assert(base5.push(i as i32).drop_last() =~= base5);
        }
        i = i + 1;
    }
    gen.path.pop();
    proof {
        assert(base5.drop_last() =~= old(gen).path@);
    }
}

/// Renders the service declarations of a file.
#[verifier::rlimit(100)]
#[verifier::spinoff_prover]
#[verifier::loop_isolation(false)]
fn render_file_services(gen: &mut Generator, f: &FileDescriptor)
    requires
        wf_file(*f),
    ensures
        final(gen).frame() == old(gen).frame(),
        final(gen).buf@ == old(gen).buf@ + spec_services_from(
            f.service@,
            0,
            old(gen).indent@,
            old(gen).path@.push(6),
            old(gen).tab(),
        ),
{
    let ghost base6 = old(gen).path@.push(6);
    gen.path.push(6);
    let ghost b0 = gen.buf@;
    let mut i: usize = 0;
    while i < f.service.len()
        invariant
            i <= f.service@.len(),
            gen.syntax == old(gen).syntax,
            gen.tab() == old(gen).tab(),
            gen.path@ == base6,
            gen.indent@ == old(gen).indent@,
            gen.buf@ + spec_services_from(
                f.service@,
                i as int,
                old(gen).indent@,
                base6,
                old(gen).tab(),
            ) == b0 + spec_services_from(f.service@, 0, old(gen).indent@, base6, old(gen).tab()),
        decreases f.service@.len() - i,
    {
        gen.path.push(i as i32);
        build_service(gen, &f.service[i]);
        gen.path.pop();
        proof {
            assert(base6.push(i as i32).drop_last() =~= base6);
        }
        i = i + 1;
    }
    gen.path.pop();
    proof {
        assert(base6.drop_last() =~= old(gen).path@);
    }
}

/// Renders one whole file: syntax line, package line, import lines,
/// then every message, enum and service, each category in turn.
#[verifier::rlimit(100)]
#[verifier::spinoff_prover]
pub fn build_file(gen: &mut Generator, f: &FileDescriptor)
    requires
        wf_file(*f),
    ensures
        final(gen).frame() == old(gen).frame(),
        final(gen).buf@ == old(gen).buf@ + spec_file_text(
            *f,
            old(gen).indent@,
            old(gen).path@,
            old(gen).syntax,
            old(gen).tab(),
        ),
{
    match f.syntax.as_ref() {
        Some(s) => {
            gen.path.push(12);
            gen.write_indent();
            gen.write("syntax = \"");
            gen.write(s.as_str());
            gen.write("\";\n\n");
            gen.path.pop();
            proof {
                assert(old(gen).path@.push(12).drop_last() =~= old(gen).path@);
            }
        },
        None => {},
    }
    gen.path.push(2);
    match f.package.as_ref() {
        Some(p) => {
            gen.write_indent();
            gen.write("package ");
            gen.write(p.as_str());
            gen.write(";\n\n");
        },
        None => {},
    }
    gen.path.pop();
    proof {
        assert(old(gen).path@.push(2).drop_last() =~= old(gen).path@);
    }
    render_imports(gen, &f.dependency);
    render_file_messages(gen, f);
    render_file_enums(gen, f);
    render_file_services(gen, f);
}

/// The syntax version a file's declaration selects.
fn syntax_of(s: &Option<String>) -> (r: Syntax)
    ensures
        r == spec_syntax_of(*s),
{
    match s.as_ref() {
        Some(x) => {
            let p3: String = "proto3".to_owned();
            if *x == p3 {
                Syntax::Proto3
            } else {
                Syntax::Proto2
            }
        },
        None => Syntax::Proto2,
    }
}

/// Renders a whole descriptor tree back to textual source: a pure
/// function of the tree and its own comment side-table. The output is
/// exactly the text `spec_file_text` defines, under the syntax version
/// the file declares.
pub fn render(file: &FileDescriptor) -> (r: String)
    requires
        wf_file(*file),
    ensures
        r@ == spec_file_text(
            *file,
            Seq::<char>::empty(),
            Seq::<i32>::empty(),
            spec_syntax_of(file.syntax),
            file.source_code_info,
        ),
{
    let syn: Syntax = syntax_of(&file.syntax);
    let tab: Option<&SourceInfo> = file.source_code_info.as_ref();
    let mut gen: Generator = Generator::new(syn, tab);
    proof {
        assert(gen.tab() == file.source_code_info);
    }
    build_file(&mut gen, file);
    gen.buf
}

/// The original rendering interface: every descriptor node renders
/// itself into a `Generator`, and any node can be rendered to a whole
/// string given the file whose syntax and comment table govern the run.
pub trait ProtobufString {
    /// What the node requires of itself before rendering.
    spec fn wf_node(&self) -> bool;

    /// The exact text this node renders as, in a given state.
    spec fn rendered(&self, ind: Seq<char>, p: Seq<i32>, syn: Syntax, tab: Option<SourceInfo>)
        -> Seq<char>;

    /// Appends this node's rendering to the generator's buffer.
    fn build_protobuf(&self, gen: &mut Generator)
        requires
            self.wf_node(),
        ensures
            final(gen).frame() == old(gen).frame(),
            final(gen).buf@ == old(gen).buf@ + self.rendered(
                old(gen).indent@,
                old(gen).path@,
                old(gen).syntax,
                old(gen).tab(),
            ),
    ;

    /// Renders this node as a whole text, under the syntax version and
    /// comment side-table of `file_descriptor`.
    fn to_protobuf(&self, file_descriptor: FileDescriptor) -> (r: String)
        requires
            self.wf_node(),
        ensures
            r@ == self.rendered(
                Seq::<char>::empty(),
                Seq::<i32>::empty(),
                spec_syntax_of(file_descriptor.syntax),
                file_descriptor.source_code_info,
            ),
    {
        let syn: Syntax = syntax_of(&file_descriptor.syntax);
        let tab: Option<&SourceInfo> = file_descriptor.source_code_info.as_ref();
        let mut gen: Generator = Generator::new(syn, tab);
        proof {
            assert(gen.tab() == file_descriptor.source_code_info);
        }
        self.build_protobuf(&mut gen);
        gen.buf
    }
}

impl ProtobufString for FileDescriptor {
    open spec fn wf_node(&self) -> bool {
        wf_file(*self)
    }

    open spec fn rendered(&self, ind: Seq<char>, p: Seq<i32>, syn: Syntax, tab: Option<SourceInfo>)
        -> Seq<char> {
        spec_file_text(*self, ind, p, syn, tab)
    }

    fn build_protobuf(&self, gen: &mut Generator) {
        build_file(gen, self);
    }
}

impl ProtobufString for MessageDescriptor {
    open spec fn wf_node(&self) -> bool {
        wf_message(*self)
    }

    open spec fn rendered(&self, ind: Seq<char>, p: Seq<i32>, syn: Syntax, tab: Option<SourceInfo>)
        -> Seq<char> {
        crate::text_spec::spec_message_decl(*self, ind, p, syn, tab)
    }

    fn build_protobuf(&self, gen: &mut Generator) {
        build_message(gen, self);
    }
}

impl ProtobufString for FieldDescriptor {
    open spec fn wf_node(&self) -> bool {
        true
    }

    open spec fn rendered(&self, ind: Seq<char>, p: Seq<i32>, syn: Syntax, tab: Option<SourceInfo>)
        -> Seq<char> {
        spec_field_line(*self, None, false, ind, p, syn, tab)
    }

    fn build_protobuf(&self, gen: &mut Generator) {
        build_field(gen, self, None, false);
    }
}

impl ProtobufString for EnumDescriptor {
    open spec fn wf_node(&self) -> bool {
        wf_enum(*self)
    }

    open spec fn rendered(&self, ind: Seq<char>, p: Seq<i32>, syn: Syntax, tab: Option<SourceInfo>)
        -> Seq<char> {
        spec_enum_decl(*self, ind, p, tab)
    }

    fn build_protobuf(&self, gen: &mut Generator) {
        build_enum(gen, self);
    }
}

impl ProtobufString for EnumValueDescriptor {
    open spec fn wf_node(&self) -> bool {
        true
    }

    open spec fn rendered(&self, ind: Seq<char>, p: Seq<i32>, syn: Syntax, tab: Option<SourceInfo>)
        -> Seq<char> {
        spec_enum_value_line(*self, ind, p, tab)
    }

    fn build_protobuf(&self, gen: &mut Generator) {
        build_enum_value(gen, self);
    }
}

impl ProtobufString for ServiceDescriptor {
    open spec fn wf_node(&self) -> bool {
        wf_service(*self)
    }

    open spec fn rendered(&self, ind: Seq<char>, p: Seq<i32>, syn: Syntax, tab: Option<SourceInfo>)
        -> Seq<char> {
        spec_service_decl(*self, ind, p, tab)
    }

    fn build_protobuf(&self, gen: &mut Generator) {
        build_service(gen, self);
    }
}

impl ProtobufString for MethodDescriptor {
    open spec fn wf_node(&self) -> bool {
        true
    }

    open spec fn rendered(&self, ind: Seq<char>, p: Seq<i32>, syn: Syntax, tab: Option<SourceInfo>)
        -> Seq<char> {
        spec_method_line(*self, ind, p, tab)
    }

    fn build_protobuf(&self, gen: &mut Generator) {
        build_method(gen, self);
    }
}

} // verus!
