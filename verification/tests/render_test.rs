use protobuf_gen::{
    check_file, check_message, render, CommentLocation, EnumDescriptor, EnumValueDescriptor,
    FieldDescriptor, FileDescriptor, MessageDescriptor, MethodDescriptor, OneofDescriptor,
    ProtobufString, ReservedRange, ServiceDescriptor, SourceInfo,
};

fn field(
    name: &str,
    number: i32,
    label: Option<i32>,
    type_code: Option<i32>,
    type_ref: Option<&str>,
    oneof_index: Option<i32>,
) -> FieldDescriptor {
    FieldDescriptor {
        name: Some(name.to_string()),
        number: Some(number),
        label,
        type_code,
        type_ref: type_ref.map(|s| s.to_string()),
        oneof_index,
    }
}

fn message(name: &str) -> MessageDescriptor {
    MessageDescriptor {
        name: Some(name.to_string()),
        field: Vec::new(),
        nested_type: Vec::new(),
        enum_type: Vec::new(),
        oneof_decl: Vec::new(),
        reserved_range: Vec::new(),
        reserved_name: Vec::new(),
        map_entry: false,
    }
}

fn file() -> FileDescriptor {
    FileDescriptor {
        syntax: None,
        package: None,
        dependency: Vec::new(),
        message_type: Vec::new(),
        enum_type: Vec::new(),
        service: Vec::new(),
        source_code_info: None,
    }
}

#[test]
fn optional_renders_under_proto2_only() {
    for (syntax, expected) in [
        (
            "proto2",
            "syntax = \"proto2\";\n\n\nmessage M {\n  optional string s = 1;\n}\n",
        ),
        (
            "proto3",
            "syntax = \"proto3\";\n\n\nmessage M {\n  string s = 1;\n}\n",
        ),
    ] {
        let mut m = message("M");
        m.field.push(field("s", 1, Some(1), Some(9), None, None));
        let mut f = file();
        f.syntax = Some(syntax.to_string());
        f.message_type.push(m);
        assert!(check_file(&f));
        assert_eq!(render(&f), expected);
    }
}

#[test]
fn required_and_repeated_always_render() {
    let mut m = message("M");
    m.field.push(field("a", 1, Some(2), Some(5), None, None));
    m.field.push(field("b", 2, Some(3), Some(3), None, None));
    let mut f = file();
    f.syntax = Some("proto3".to_string());
    f.message_type.push(m);
    assert_eq!(
        render(&f),
        "syntax = \"proto3\";\n\n\nmessage M {\n  required int32 a = 1;\n  repeated int64 b = 2;\n}\n"
    );
}

#[test]
fn oneof_grouping_partitions_fields() {
    let mut m = message("M");
    m.field.push(field("f1", 1, None, Some(5), None, None));
    m.field.push(field("f2", 2, None, Some(5), None, Some(0)));
    m.field.push(field("f3", 3, None, Some(5), None, None));
    m.field.push(field("f4", 4, None, Some(5), None, Some(0)));
    m.oneof_decl.push(OneofDescriptor {
        name: Some("choice".to_string()),
    });
    let mut f = file();
    f.message_type.push(m);
    assert!(check_file(&f));
    assert_eq!(
        render(&f),
        "\nmessage M {\n  int32 f1 = 1;\n  int32 f3 = 3;\n  oneof choice {\n    int32 f2 = 2;\n    int32 f4 = 4;\n  }\n}\n"
    );
}

#[test]
fn map_sugar_substitutes_type_and_drops_label() {
    let mut marker = message("KvEntry");
    marker.map_entry = true;
    marker.field.push(field("key", 1, Some(1), Some(9), None, None));
    marker
        .field
        .push(field("value", 2, Some(1), Some(3), None, None));
    let mut m = message("M");
    m.field
        .push(field("kv", 1, Some(3), None, Some(".pkg.M.KvEntry"), None));
    m.nested_type.push(marker);
    let mut f = file();
    f.message_type.push(m);
    assert!(check_file(&f));
    let out = render(&f);
    assert_eq!(out, "\nmessage M {\n  Map<string, int64> kv = 1;\n}\n");
    assert!(!out.contains("KvEntry"));
    assert!(!out.contains("repeated"));
}

#[test]
fn non_marker_nested_type_still_renders() {
    let mut inner = message("Inner");
    inner.field.push(field("x", 1, None, Some(5), None, None));
    let mut m = message("Outer");
    m.nested_type.push(inner);
    let mut f = file();
    f.message_type.push(m);
    assert_eq!(
        render(&f),
        "\nmessage Outer {\n\n  message Inner {\n    int32 x = 1;\n  }\n}\n"
    );
}

#[test]
fn reserved_ranges_and_names_render_each_on_their_own_line() {
    let mut m = message("M");
    m.reserved_range.push(ReservedRange {
        start: Some(5),
        end: Some(5),
    });
    m.reserved_range.push(ReservedRange {
        start: Some(10),
        end: None,
    });
    m.reserved_name.push("x".to_string());
    m.reserved_name.push("y".to_string());
    let mut f = file();
    f.message_type.push(m);
    assert_eq!(
        render(&f),
        "\nmessage M {\n  reserved 5 to 5, 10 to max;\n  reserved \"x\", \"y\";\n}\n"
    );
}

#[test]
fn reserved_ranges_render_without_names() {
    let mut m = message("M");
    m.reserved_range.push(ReservedRange {
        start: Some(2),
        end: Some(3),
    });
    let mut f = file();
    f.message_type.push(m);
    assert_eq!(render(&f), "\nmessage M {\n  reserved 2 to 3;\n}\n");
}

#[test]
fn comment_attaches_above_message() {
    let mut f = file();
    f.message_type.push(message("M"));
    f.source_code_info = Some(SourceInfo {
        location: vec![CommentLocation {
            path: vec![4, 0],
            leading_comments: Some(" Doc line".to_string()),
        }],
    });
    assert_eq!(render(&f), "\n// Doc line\nmessage M {\n}\n");
}

#[test]
fn message_without_comment_gets_blank_separator_only() {
    let mut f = file();
    f.message_type.push(message("M"));
    assert_eq!(render(&f), "\nmessage M {\n}\n");
}

#[test]
fn multi_line_comment_renders_one_slash_line_each() {
    let mut f = file();
    f.message_type.push(message("M"));
    f.source_code_info = Some(SourceInfo {
        location: vec![CommentLocation {
            path: vec![4, 0],
            leading_comments: Some(" first\r\n second\n".to_string()),
        }],
    });
    assert_eq!(render(&f), "\n// first\n// second\nmessage M {\n}\n");
}

#[test]
fn field_comment_has_no_blank_fallback() {
    let mut m = message("M");
    m.field.push(field("a", 1, None, Some(5), None, None));
    m.field.push(field("b", 2, None, Some(5), None, None));
    let mut f = file();
    f.message_type.push(m);
    f.source_code_info = Some(SourceInfo {
        location: vec![CommentLocation {
            path: vec![4, 0, 2, 1],
            leading_comments: Some(" about b".to_string()),
        }],
    });
    assert_eq!(
        render(&f),
        "\nmessage M {\n  int32 a = 1;\n\n  // about b\n  int32 b = 2;\n}\n"
    );
}

#[test]
fn enum_with_values_and_reserved() {
    let mut e = EnumDescriptor {
        name: Some("E".to_string()),
        value: Vec::new(),
        reserved_range: Vec::new(),
        reserved_name: Vec::new(),
    };
    e.value.push(EnumValueDescriptor {
        name: Some("A".to_string()),
        number: Some(0),
    });
    e.value.push(EnumValueDescriptor {
        name: Some("B".to_string()),
        number: Some(-7),
    });
    e.reserved_range.push(ReservedRange {
        start: Some(100),
        end: None,
    });
    e.reserved_name.push("OLD".to_string());
    let mut f = file();
    f.enum_type.push(e);
    assert_eq!(
        render(&f),
        "\nenum E {\n  A = 0;\n  B = -7;\n  reserved 100 to max;\n  reserved \"OLD\";\n}\n"
    );
}

#[test]
fn service_with_streaming_methods() {
    let mut s = ServiceDescriptor {
        name: Some("Svc".to_string()),
        method: Vec::new(),
    };
    s.method.push(MethodDescriptor {
        name: Some("Get".to_string()),
        input_type: Some(".pkg.Req".to_string()),
        output_type: Some(".pkg.Resp".to_string()),
        client_streaming: None,
        server_streaming: Some(true),
    });
    s.method.push(MethodDescriptor {
        name: Some("Put".to_string()),
        input_type: Some(".pkg.Req".to_string()),
        output_type: Some(".pkg.Resp".to_string()),
        client_streaming: Some(true),
        server_streaming: Some(false),
    });
    let mut f = file();
    f.service.push(s);
    assert_eq!(
        render(&f),
        "\nservice Svc {\n  rpc Get(.pkg.Req) returns (stream .pkg.Resp);\n  rpc Put(stream .pkg.Req) returns (.pkg.Resp);\n}\n"
    );
}

#[test]
fn file_header_package_and_imports() {
    let mut f = file();
    f.syntax = Some("proto2".to_string());
    f.package = Some("a.b".to_string());
    f.dependency.push("x/y.proto".to_string());
    f.dependency.push("z.proto".to_string());
    assert_eq!(
        render(&f),
        "syntax = \"proto2\";\n\npackage a.b;\n\nimport \"x/y.proto\";\nimport \"z.proto\";\n"
    );
}

#[test]
fn extreme_numbers_render_exactly() {
    let mut m = message("M");
    m.field
        .push(field("lo", -2147483648, None, Some(5), None, None));
    m.field
        .push(field("hi", 2147483647, None, Some(5), None, None));
    let mut f = file();
    f.message_type.push(m);
    assert_eq!(
        render(&f),
        "\nmessage M {\n  int32 lo = -2147483648;\n  int32 hi = 2147483647;\n}\n"
    );
}

#[test]
fn all_primitive_type_keywords() {
    let names = [
        "double", "float", "int64", "uint64", "int32", "fixed64", "fixed32", "bool", "string",
        "group", "message", "bytes", "uint32", "enum", "sfixed32", "sfixed64", "sint32", "sint64",
    ];
    let mut m = message("M");
    for (i, _) in names.iter().enumerate() {
        m.field.push(field(
            &format!("f{}", i + 1),
            (i + 1) as i32,
            None,
            Some((i + 1) as i32),
            None,
            None,
        ));
    }
    let mut f = file();
    f.message_type.push(m);
    let out = render(&f);
    for (i, n) in names.iter().enumerate() {
        assert!(out.contains(&format!("  {} f{} = {};\n", n, i + 1, i + 1)));
    }
}

#[test]
fn out_of_range_type_code_renders_no_keyword() {
    let mut m = message("M");
    m.field.push(field("x", 7, None, Some(99), None, None));
    let mut f = file();
    f.message_type.push(m);
    assert_eq!(render(&f), "\nmessage M {\n   x = 7;\n}\n");
}

#[test]
fn type_reference_wins_over_code() {
    let mut m = message("M");
    m.field
        .push(field("x", 1, None, Some(9), Some(".other.T"), None));
    let mut f = file();
    f.message_type.push(m);
    assert_eq!(render(&f), "\nmessage M {\n  .other.T x = 1;\n}\n");
}

#[test]
fn render_is_deterministic() {
    let build = || {
        let mut m = message("M");
        m.field.push(field("s", 1, Some(1), Some(9), None, None));
        let mut f = file();
        f.syntax = Some("proto2".to_string());
        f.message_type.push(m);
        f
    };
    assert_eq!(render(&build()), render(&build()));
}

#[test]
fn to_protobuf_takes_syntax_and_comments_from_its_argument() {
    let build = |syntax: &str| {
        let mut m = message("M");
        m.field.push(field("s", 1, Some(1), Some(9), None, None));
        let mut f = file();
        f.syntax = Some(syntax.to_string());
        f.message_type.push(m);
        f
    };
    let subject = build("proto2");
    let out = subject.to_protobuf(build("proto3"));
    assert_eq!(
        out,
        "syntax = \"proto2\";\n\n\nmessage M {\n  string s = 1;\n}\n"
    );
}

#[test]
fn check_rejects_out_of_range_oneof_index() {
    let mut m = message("M");
    m.field.push(field("a", 1, None, Some(5), None, Some(0)));
    assert!(!check_message(&m));
    m.oneof_decl.push(OneofDescriptor {
        name: Some("o".to_string()),
    });
    assert!(check_message(&m));
}

#[test]
fn check_rejects_short_map_marker() {
    let mut marker = message("E");
    marker.map_entry = true;
    marker.field.push(field("key", 1, None, Some(9), None, None));
    let mut m = message("M");
    m.nested_type.push(marker);
    assert!(!check_message(&m));
}
