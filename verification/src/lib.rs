//! Renders a compiled schema-descriptor tree back into textual `.proto`
//! source. The descriptor model mirrors what a schema compiler emits:
//! files holding messages, enums and services, with an optional side-table
//! of source comments keyed by structural address.

pub mod comments;
pub mod descriptor;
pub mod generator;
pub mod laws;
pub mod numeral;
pub mod render;
pub mod text_spec;
pub mod util;

pub use descriptor::{
    check_enum, check_file, check_message, check_service, CommentLocation, EnumDescriptor,
    EnumValueDescriptor, FieldDescriptor, FileDescriptor, MessageDescriptor, MethodDescriptor,
    OneofDescriptor, ReservedRange, ServiceDescriptor, SourceInfo, Syntax,
};
pub use generator::Generator;
pub use render::{render, ProtobufString};
