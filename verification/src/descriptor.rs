//! The descriptor model: plain-data snapshots of a compiled schema file,
//! the input of the renderer. Field numbers, type codes and label codes
//! carry the schema compiler's own raw values; well-formedness of a tree
//! is stated by the `wf_*` spec functions and decided executably by the
//! `check_*` functions.

use vstd::prelude::*;

verus! {

/// The syntax version a file declares; the older version is the default.
#[derive(Clone, Copy, PartialEq, Eq, Structural)]
pub enum Syntax {
    Proto2,
    Proto3,
}

/// One member of a message: name, tag number, raw label and type codes,
/// an optional named type reference, and the owning oneof's index, if any.
pub struct FieldDescriptor {
    pub name: Option<String>,
    pub number: Option<i32>,
    pub label: Option<i32>,
    pub type_code: Option<i32>,
    pub type_ref: Option<String>,
    pub oneof_index: Option<i32>,
}

/// A oneof declaration; fields point back at it by index.
pub struct OneofDescriptor {
    pub name: Option<String>,
}

/// A reserved numeric range. `start` is inclusive; an absent `end` is
/// rendered as the unbounded keyword.
pub struct ReservedRange {
    pub start: Option<i32>,
    pub end: Option<i32>,
}

/// One value of an enum.
pub struct EnumValueDescriptor {
    pub name: Option<String>,
    pub number: Option<i32>,
}

/// A closed set of named integers.
pub struct EnumDescriptor {
    pub name: Option<String>,
    pub value: Vec<EnumValueDescriptor>,
    pub reserved_range: Vec<ReservedRange>,
    pub reserved_name: Vec<String>,
}

/// One RPC method of a service.
pub struct MethodDescriptor {
    pub name: Option<String>,
    pub input_type: Option<String>,
    pub output_type: Option<String>,
    pub client_streaming: Option<bool>,
    pub server_streaming: Option<bool>,
}

/// An RPC interface.
pub struct ServiceDescriptor {
    pub name: Option<String>,
    pub method: Vec<MethodDescriptor>,
}

/// A structured-record definition. `map_entry` is true for the synthetic
/// two-field marker types the schema compiler fabricates for map fields.
pub struct MessageDescriptor {
    pub name: Option<String>,
    pub field: Vec<FieldDescriptor>,
    pub nested_type: Vec<MessageDescriptor>,
    pub enum_type: Vec<EnumDescriptor>,
    pub oneof_decl: Vec<OneofDescriptor>,
    pub reserved_range: Vec<ReservedRange>,
    pub reserved_name: Vec<String>,
    pub map_entry: bool,
}

/// One entry of the comment side-table: a structural address and the
/// leading comment recorded there, if any.
pub struct CommentLocation {
    pub path: Vec<i32>,
    pub leading_comments: Option<String>,
}

/// The comment side-table of one file.
pub struct SourceInfo {
    pub location: Vec<CommentLocation>,
}

/// One schema file: syntax, package, imports, and its ordered
/// declarations, plus the optional comment side-table.
pub struct FileDescriptor {
    pub syntax: Option<String>,
    pub package: Option<String>,
    pub dependency: Vec<String>,
    pub message_type: Vec<MessageDescriptor>,
    pub enum_type: Vec<EnumDescriptor>,
    pub service: Vec<ServiceDescriptor>,
    pub source_code_info: Option<SourceInfo>,
}

/// Index bound under which a collection index can be written as an `i32`
/// structural-address component.
pub open spec fn fits_i32(n: nat) -> bool {
    n <= 0x7fff_ffff
}

/// A message is well formed when every field's owning-oneof index points
/// at a declared oneof, every synthetic map-entry marker carries its two
/// key/value fields, collection sizes fit the address space, and the
/// nested messages are well formed in turn.
pub open spec fn wf_message(m: MessageDescriptor) -> bool
    decreases m,
{
    &&& fits_i32(m.field@.len())
    &&& fits_i32(m.nested_type@.len())
    &&& fits_i32(m.enum_type@.len())
    &&& fits_i32(m.oneof_decl@.len())
    &&& forall|i: int|
        0 <= i < m.field@.len() && m.field@[i].oneof_index is Some
            ==> 0 <= (#[trigger] m.field@[i]).oneof_index->0 < m.oneof_decl@.len()
    &&& forall|i: int|
        0 <= i < m.nested_type@.len() && (#[trigger] m.nested_type@[i]).map_entry
            ==> m.nested_type@[i].field@.len() >= 2
    &&& forall|i: int|
        0 <= i < m.nested_type@.len() ==> wf_message(#[trigger] m.nested_type@[i])
    &&& forall|i: int|
        0 <= i < m.enum_type@.len() ==> wf_enum(#[trigger] m.enum_type@[i])
}

/// Enums only need their value list to fit the address space.
pub open spec fn wf_enum(e: EnumDescriptor) -> bool {
    fits_i32(e.value@.len())
}

/// Services only need their method list to fit the address space.
pub open spec fn wf_service(s: ServiceDescriptor) -> bool {
    fits_i32(s.method@.len())
}

/// A file is well formed when its lists fit the address space and every
/// declaration in it is well formed.
pub open spec fn wf_file(f: FileDescriptor) -> bool {
    &&& fits_i32(f.dependency@.len())
    &&& fits_i32(f.message_type@.len())
    &&& fits_i32(f.enum_type@.len())
    &&& fits_i32(f.service@.len())
    &&& forall|i: int|
        0 <= i < f.message_type@.len() ==> wf_message(#[trigger] f.message_type@[i])
    &&& forall|i: int| 0 <= i < f.enum_type@.len() ==> wf_enum(#[trigger] f.enum_type@[i])
    &&& forall|i: int| 0 <= i < f.service@.len() ==> wf_service(#[trigger] f.service@[i])
}

/// Decides `wf_enum` executably.
pub fn check_enum(e: &EnumDescriptor) -> (b: bool)
    ensures
        b == wf_enum(*e),
{
    e.value.len() <= 2147483647
}

/// Decides `wf_service` executably.
pub fn check_service(s: &ServiceDescriptor) -> (b: bool)
    ensures
        b == wf_service(*s),
{
    s.method.len() <= 2147483647
}

/// Decides `wf_message` executably, so that an unverified caller can
/// test a tree before rendering it.
#[verifier::loop_isolation(false)]
pub fn check_message(m: &MessageDescriptor) -> (b: bool)
    ensures
        b == wf_message(*m),
    decreases *m,
{
    if m.field.len() > 2147483647 || m.nested_type.len() > 2147483647 || m.enum_type.len()
        > 2147483647 || m.oneof_decl.len() > 2147483647 {
        return false;
    }
    let mut i: usize = 0;
    while i < m.field.len()
        invariant
            i <= m.field@.len(),
            forall|k: int|
                0 <= k < i && m.field@[k].oneof_index is Some ==> 0 <= (
                #[trigger] m.field@[k]).oneof_index->0 < m.oneof_decl@.len(),
        decreases m.field@.len() - i,
    {
        match m.field[i].oneof_index {
            Some(j) => {
                if j < 0 || j as usize >= m.oneof_decl.len() {
                    return false;
                }
            },
            None => {},
        }
        i = i + 1;
    }
    let mut i: usize = 0;
    while i < m.nested_type.len()
        invariant
            i <= m.nested_type@.len(),
            forall|k: int|
                0 <= k < i && (#[trigger] m.nested_type@[k]).map_entry ==> m.nested_type@[
                    k
                ].field@.len() >= 2,
            forall|k: int| 0 <= k < i ==> wf_message(#[trigger] m.nested_type@[k]),
        decreases m.nested_type@.len() - i,
    {
        if m.nested_type[i].map_entry && m.nested_type[i].field.len() < 2 {
            return false;
        }
        if !check_message(&m.nested_type[i]) {
            return false;
        }
        i = i + 1;
    }
    let mut i: usize = 0;
    while i < m.enum_type.len()
        invariant
            i <= m.enum_type@.len(),
            forall|k: int| 0 <= k < i ==> wf_enum(#[trigger] m.enum_type@[k]),
        decreases m.enum_type@.len() - i,
    {
        if !check_enum(&m.enum_type[i]) {
            return false;
        }
        i = i + 1;
    }
    true
}

/// Decides `wf_file` executably, so that an unverified caller can test
/// a tree before rendering it.
#[verifier::loop_isolation(false)]
pub fn check_file(f: &FileDescriptor) -> (b: bool)
    ensures
        b == wf_file(*f),
{
    if f.dependency.len() > 2147483647 || f.message_type.len() > 2147483647 || f.enum_type.len()
        > 2147483647 || f.service.len() > 2147483647 {
        return false;
    }
    let mut i: usize = 0;
    while i < f.message_type.len()
        invariant
            i <= f.message_type@.len(),
            forall|k: int| 0 <= k < i ==> wf_message(#[trigger] f.message_type@[k]),
        decreases f.message_type@.len() - i,
    {
        if !check_message(&f.message_type[i]) {
            return false;
        }
        i = i + 1;
    }
    let mut i: usize = 0;
    while i < f.enum_type.len()
        invariant
            i <= f.enum_type@.len(),
            forall|k: int| 0 <= k < i ==> wf_enum(#[trigger] f.enum_type@[k]),
        decreases f.enum_type@.len() - i,
    {
        if !check_enum(&f.enum_type[i]) {
            return false;
        }
        i = i + 1;
    }
    let mut i: usize = 0;
    while i < f.service.len()
        invariant
            i <= f.service@.len(),
            forall|k: int| 0 <= k < i ==> wf_service(#[trigger] f.service@[k]),
        decreases f.service@.len() - i,
    {
        if !check_service(&f.service[i]) {
            return false;
        }
        i = i + 1;
    }
    true
}

} // verus!
