//! The parsed descriptor tree that a schema file is reduced from: the part
//! of a compiler's file descriptor that the schema model reads, as plain
//! values.
use vstd::prelude::*;

verus! {

/// One field of a message descriptor.
#[derive(Debug, Clone, PartialEq, Eq)]
pub struct FieldDescriptor {
    pub name: String,
    /// Whether the descriptor calls the field singular (required or optional).
    pub singular: bool,
    /// Whether the descriptor calls the field repeated (and not a map).
    pub repeated: bool,
    /// The wire-type tag of the field's type.
    pub type_tag: i32,
}

/// One message descriptor: its fields and the message types declared inside
/// it, each in declaration order.
#[derive(Debug, PartialEq, Eq)]
pub struct MessageDescriptor {
    pub name: String,
    pub fields: Vec<FieldDescriptor>,
    pub nested: Vec<MessageDescriptor>,
}

/// One method descriptor.
#[derive(Debug, Clone, PartialEq, Eq)]
pub struct MethodDescriptor {
    pub name: String,
    pub client_streaming: bool,
    pub server_streaming: bool,
    pub input_type: String,
}

/// One service descriptor, its methods in declaration order.
#[derive(Debug, Clone, PartialEq, Eq)]
pub struct ServiceDescriptor {
    pub name: String,
    pub methods: Vec<MethodDescriptor>,
}

/// A parsed file: its name, package, and top-level services and messages in
/// declaration order.
#[derive(Debug, PartialEq, Eq)]
pub struct FileDescriptor {
    pub name: String,
    pub package: String,
    pub services: Vec<ServiceDescriptor>,
    pub messages: Vec<MessageDescriptor>,
}

/// The mathematical value of a `FieldDescriptor`.
pub struct FieldDescriptorModel {
    pub name: Seq<char>,
    pub singular: bool,
    pub repeated: bool,
    pub type_tag: i32,
}

/// The mathematical value of a `MessageDescriptor`.
pub struct MessageDescriptorModel {
    pub name: Seq<char>,
    pub fields: Seq<FieldDescriptorModel>,
    pub nested: Seq<MessageDescriptorModel>,
}

/// The mathematical value of a `MethodDescriptor`.
pub struct MethodDescriptorModel {
    pub name: Seq<char>,
    pub client_streaming: bool,
    pub server_streaming: bool,
    pub input_type: Seq<char>,
}

/// The mathematical value of a `ServiceDescriptor`.
pub struct ServiceDescriptorModel {
    pub name: Seq<char>,
    pub methods: Seq<MethodDescriptorModel>,
}

/// The mathematical value of a `FileDescriptor`.
pub struct FileDescriptorModel {
    pub name: Seq<char>,
    pub package: Seq<char>,
    pub services: Seq<ServiceDescriptorModel>,
    pub messages: Seq<MessageDescriptorModel>,
}

impl View for FieldDescriptor {
    type V = FieldDescriptorModel;

    open spec fn view(&self) -> FieldDescriptorModel {
        FieldDescriptorModel {
            name: self.name@,
            singular: self.singular,
            repeated: self.repeated,
            type_tag: self.type_tag,
        }
    }
}

impl View for MessageDescriptor {
    type V = MessageDescriptorModel;

    open spec fn view(&self) -> MessageDescriptorModel
        decreases self,
    {
        MessageDescriptorModel {
            name: self.name@,
            fields: self.fields@.map_values(|f: FieldDescriptor| f@),
            nested: Seq::new(
                self.nested@.len(),
                |i: int|
                    if 0 <= i < self.nested@.len() {
                        self.nested@[i]@
                    } else {
                        MessageDescriptorModel { name: seq![], fields: seq![], nested: seq![] }
                    },
            ),
        }
    }
}

impl View for MethodDescriptor {
    type V = MethodDescriptorModel;

    open spec fn view(&self) -> MethodDescriptorModel {
        MethodDescriptorModel {
            name: self.name@,
            client_streaming: self.client_streaming,
            server_streaming: self.server_streaming,
            input_type: self.input_type@,
        }
    }
}

impl View for ServiceDescriptor {
    type V = ServiceDescriptorModel;

    open spec fn view(&self) -> ServiceDescriptorModel {
        ServiceDescriptorModel {
            name: self.name@,
            methods: self.methods@.map_values(|m: MethodDescriptor| m@),
        }
    }
}

impl View for FileDescriptor {
    type V = FileDescriptorModel;

    open spec fn view(&self) -> FileDescriptorModel {
        FileDescriptorModel {
            name: self.name@,
            package: self.package@,
            services: self.services@.map_values(|s: ServiceDescriptor| s@),
            messages: self.messages@.map_values(|m: MessageDescriptor| m@),
        }
    }
}

} // verus!

