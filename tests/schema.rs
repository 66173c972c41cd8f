use proto_model::batch::{reduce_all, reduce_batch, ParseError};
use proto_model::descriptor::{
    FieldDescriptor, FileDescriptor, MessageDescriptor, MethodDescriptor, ServiceDescriptor,
};
use proto_model::schema::{Cardinality, Field, FieldKind, Message, Method, MethodKind, Proto, Service};

fn field(name: &str, singular: bool, repeated: bool, type_tag: i32) -> FieldDescriptor {
    FieldDescriptor { name: name.to_string(), singular, repeated, type_tag }
}

fn message(name: &str, fields: Vec<FieldDescriptor>, nested: Vec<MessageDescriptor>) -> MessageDescriptor {
    MessageDescriptor { name: name.to_string(), fields, nested }
}

fn method(name: &str, client: bool, server: bool, input: &str) -> MethodDescriptor {
    MethodDescriptor {
        name: name.to_string(),
        client_streaming: client,
        server_streaming: server,
        input_type: input.to_string(),
    }
}

fn service(name: &str, methods: Vec<MethodDescriptor>) -> ServiceDescriptor {
    ServiceDescriptor { name: name.to_string(), methods }
}

fn file(name: &str, services: Vec<ServiceDescriptor>, messages: Vec<MessageDescriptor>) -> FileDescriptor {
    FileDescriptor { name: name.to_string(), package: "demo.v1".to_string(), services, messages }
}

fn auth_file() -> FileDescriptor {
    file(
        "auth.proto",
        vec![service(
            "Auth",
            vec![
                method("Login", false, false, ".demo.v1.LoginRequest"),
                method("Watch", false, true, ".demo.v1.WatchRequest"),
            ],
        )],
        vec![
            message("LoginRequest", vec![field("user", true, false, 9), field("password", true, false, 9)], vec![]),
            message("WatchRequest", vec![field("token", true, false, 12)], vec![]),
        ],
    )
}

#[test]
fn load_proto() {
    let proto = Proto::from_descriptor(&auth_file());
    assert_eq!(proto.name, "auth.proto");
    assert_eq!(proto.package, "demo.v1");
    assert_eq!(proto.services.len(), 1);
    assert_eq!(proto.services[0].name, "Auth");
    assert_eq!(proto.services[0].methods[0].kind, MethodKind::Unary);
    assert_eq!(proto.services[0].methods[0].input_type, ".demo.v1.LoginRequest");
    assert_eq!(proto.services[0].methods[1].kind, MethodKind::ServerStreaming);
    assert_eq!(proto.messages.len(), 2);
    assert_eq!(proto.messages[1].fields[0].field_type, FieldKind::Bytes);
}

#[test]
fn field_classification_is_total_and_exclusive() {
    for singular in [false, true] {
        for repeated in [false, true] {
            let f = Field::from_descriptor(&field("f", singular, repeated, 5));
            assert!(!(f.optional() && f.repeated()));
            assert_eq!(f.repeated(), repeated);
            assert_eq!(f.optional(), singular && !repeated);
        }
    }
    assert_eq!(Cardinality::from_flags(true, true), Cardinality::Repeated);
    assert_eq!(Cardinality::from_flags(false, false), Cardinality::Keyed);
    assert_eq!(Cardinality::from_flags(true, false), Cardinality::Singular);
}

#[test]
fn method_classification_truth_table() {
    assert_eq!(MethodKind::from_streaming(false, false), MethodKind::Unary);
    assert_eq!(MethodKind::from_streaming(true, false), MethodKind::ClientStreaming);
    assert_eq!(MethodKind::from_streaming(false, true), MethodKind::ServerStreaming);
    assert_eq!(MethodKind::from_streaming(true, true), MethodKind::BidirectionalStreaming);
}

#[test]
fn streaming_scenario() {
    let bidi = Method::from_descriptor_proto(&method("Chat", true, true, ".Msg"));
    assert_eq!(bidi.kind, MethodKind::BidirectionalStreaming);
    let unary = Method::from_descriptor_proto(&method("Get", false, false, ".Req"));
    assert_eq!(unary.kind, MethodKind::Unary);
    assert_eq!(unary.name, "Get");
    assert_eq!(unary.input_type, ".Req");
}

#[test]
fn type_tags_map_one_to_one() {
    let expected = [
        FieldKind::Double,
        FieldKind::Float,
        FieldKind::Int64,
        FieldKind::Uint64,
        FieldKind::Int32,
        FieldKind::Fixed64,
        FieldKind::Fixed32,
        FieldKind::Bool,
        FieldKind::String,
        FieldKind::Group,
        FieldKind::Message,
        FieldKind::Bytes,
        FieldKind::Uint32,
        FieldKind::Enum,
        FieldKind::Sfixed32,
        FieldKind::Sfixed64,
        FieldKind::Sint32,
        FieldKind::Sint64,
    ];
    for (i, k) in expected.iter().enumerate() {
        assert_eq!(FieldKind::from_type_tag(i as i32 + 1), *k);
    }
    assert_eq!(FieldKind::from_type_tag(0), FieldKind::Unknown);
    assert_eq!(FieldKind::from_type_tag(19), FieldKind::Unknown);
    assert_eq!(FieldKind::from_type_tag(-1), FieldKind::Unknown);
}

#[test]
fn defaults_are_unknown() {
    assert_eq!(FieldKind::default(), FieldKind::Unknown);
    assert_eq!(MethodKind::default(), MethodKind::Unknown);
}

#[test]
fn round_trip_scenario() {
    let d = message("Item", vec![field("id", true, false, 3), field("tags", false, true, 9)], vec![]);
    let m = Message::from_descriptor_proto(&d);
    assert_eq!(m.name, "Item");
    assert_eq!(m.fields.len(), 2);
    assert_eq!(m.fields[0].name, "id");
    assert_eq!(m.fields[0].field_type, FieldKind::Int64);
    assert!(m.fields[0].optional());
    assert!(!m.fields[0].repeated());
    assert_eq!(m.fields[1].name, "tags");
    assert_eq!(m.fields[1].field_type, FieldKind::String);
    assert!(m.fields[1].repeated());
    assert!(!m.fields[1].optional());
}

#[test]
fn map_field_is_keyed() {
    let f = Field::from_descriptor(&field("labels", false, false, 11));
    assert_eq!(f.cardinality, Cardinality::Keyed);
    assert_eq!(f.field_type, FieldKind::Message);
    assert!(!f.optional());
    assert!(!f.repeated());
}

#[test]
fn order_is_preserved() {
    let d = file(
        "order.proto",
        vec![
            service("S1", vec![method("A", false, false, ".X"), method("B", true, false, ".Y")]),
            service("S2", vec![]),
            service("S3", vec![method("C", false, true, ".Z")]),
        ],
        vec![
            message("M1", vec![field("a", true, false, 5), field("b", true, false, 8), field("c", false, true, 9)], vec![]),
            message("M2", vec![], vec![]),
        ],
    );
    let p = Proto::from_descriptor(&d);
    let names: Vec<&str> = p.services.iter().map(|s| s.name.as_str()).collect();
    assert_eq!(names, vec!["S1", "S2", "S3"]);
    let methods: Vec<&str> = p.services[0].methods.iter().map(|m| m.name.as_str()).collect();
    assert_eq!(methods, vec!["A", "B"]);
    assert_eq!(p.services[0].methods[1].kind, MethodKind::ClientStreaming);
    assert!(p.services[1].methods.is_empty());
    let messages: Vec<&str> = p.messages.iter().map(|m| m.name.as_str()).collect();
    assert_eq!(messages, vec!["M1", "M2"]);
    let fields: Vec<&str> = p.messages[0].fields.iter().map(|f| f.name.as_str()).collect();
    assert_eq!(fields, vec!["a", "b", "c"]);
}

#[test]
fn nested_messages_follow_their_parent() {
    let inner = message("Inner", vec![field("x", true, false, 17)], vec![message("Deep", vec![], vec![])]);
    let d = file(
        "nested.proto",
        vec![],
        vec![
            message("Outer", vec![field("inner", true, false, 11)], vec![inner, message("Side", vec![], vec![])]),
            message("Last", vec![], vec![]),
        ],
    );
    let p = Proto::from_descriptor(&d);
    let messages: Vec<&str> = p.messages.iter().map(|m| m.name.as_str()).collect();
    assert_eq!(messages, vec!["Outer", "Inner", "Deep", "Side", "Last"]);
    assert_eq!(p.messages[1].fields[0].field_type, FieldKind::Sint32);
}

#[test]
fn empty_file_reduces_to_empty_proto() {
    let p = Proto::from_descriptor(&file("empty.proto", vec![], vec![]));
    assert_eq!(p.name, "empty.proto");
    assert!(p.services.is_empty());
    assert!(p.messages.is_empty());
}

#[test]
fn batch_keeps_input_order() {
    let locations = vec!["a.proto".to_string(), "b.proto".to_string(), "c.proto".to_string()];
    let parsed = vec![
        Ok(file("a.proto", vec![], vec![])),
        Ok(file("b.proto", vec![], vec![])),
        Ok(file("c.proto", vec![], vec![])),
    ];
    let all = reduce_all(&locations, &parsed).unwrap();
    let names: Vec<&str> = all.iter().map(|p| p.name.as_str()).collect();
    assert_eq!(names, vec!["a.proto", "b.proto", "c.proto"]);
    let each = reduce_batch(&locations, &parsed);
    assert_eq!(each.len(), 3);
    assert_eq!(each[2].as_ref().unwrap().name, "c.proto");
}

#[test]
fn failure_names_the_location() {
    let locations = vec!["valid.proto".to_string(), "missing.proto".to_string()];
    let parsed = vec![Ok(auth_file()), Err("file not found".to_string())];
    let err = reduce_all(&locations, &parsed).unwrap_err();
    assert_eq!(
        err,
        ParseError { location: "missing.proto".to_string(), reason: "file not found".to_string() }
    );
    let each = reduce_batch(&locations, &parsed);
    assert_eq!(each.len(), 2);
    assert_eq!(each[0].as_ref().unwrap().name, "auth.proto");
    assert_eq!(each[1].as_ref().unwrap_err().location, "missing.proto");
}

#[test]
fn first_failure_is_reported() {
    let locations = vec!["a.proto".to_string(), "b.proto".to_string(), "c.proto".to_string()];
    let parsed = vec![Ok(auth_file()), Err("syntax".to_string()), Err("import".to_string())];
    let err = reduce_all(&locations, &parsed).unwrap_err();
    assert_eq!(err.location, "b.proto");
    assert_eq!(err.reason, "syntax");
}

#[test]
fn empty_batch() {
    let locations: Vec<String> = vec![];
    let parsed: Vec<Result<FileDescriptor, String>> = vec![];
    assert!(reduce_all(&locations, &parsed).unwrap().is_empty());
    assert!(reduce_batch(&locations, &parsed).is_empty());
}

#[test]
fn service_reduction_keeps_methods() {
    let s = Service::from_descriptor_proto(&service("Svc", vec![method("Up", true, false, ".Chunk")]));
    assert_eq!(s.name, "Svc");
    assert_eq!(s.methods.len(), 1);
    assert_eq!(s.methods[0].kind, MethodKind::ClientStreaming);
}
