//! The normalized schema model: what a parsed file reduces to.
use vstd::prelude::*;

verus! {

/// The kind of a field's values, one variant per wire type, with `Unknown`
/// for a tag that names none.
#[derive(Debug, Clone, Copy, PartialEq, Eq, Structural)]
pub enum FieldKind {
    Unknown,
    Double,
    Float,
    Int64,
    Uint64,
    Int32,
    Fixed64,
    Fixed32,
    Bool,
    String,
    Group,
    Message,
    Bytes,
    Uint32,
    Enum,
    Sfixed32,
    Sfixed64,
    Sint32,
    Sint64,
}

impl Default for FieldKind {
    fn default() -> (r: FieldKind)
        ensures
            r == FieldKind::Unknown,
    {
        FieldKind::Unknown
    }
}

/// How many values a field holds: one (possibly absent), a sequence, or the
/// entries of a map. A single choice, so a field can never be both singular
/// and repeated.
#[derive(Debug, Clone, Copy, PartialEq, Eq, Structural)]
pub enum Cardinality {
    Singular,
    Repeated,
    Keyed,
}

/// The call shape of a remote method.
#[derive(Debug, Clone, Copy, PartialEq, Eq, Structural)]
pub enum MethodKind {
    Unknown,
    Unary,
    ClientStreaming,
    ServerStreaming,
    BidirectionalStreaming,
}

impl Default for MethodKind {
    fn default() -> (r: MethodKind)
        ensures
            r == MethodKind::Unknown,
    {
        MethodKind::Unknown
    }
}

/// One member of a message.
#[derive(Debug, Clone, PartialEq, Eq)]
pub struct Field {
    pub name: String,
    pub field_type: FieldKind,
    pub cardinality: Cardinality,
}

/// A named record type, its fields in declaration order.
#[derive(Debug, Clone, PartialEq, Eq)]
pub struct Message {
    pub name: String,
    pub fields: Vec<Field>,
}

/// One remote entry point; `input_type` is the raw, unresolved type name.
#[derive(Debug, Clone, PartialEq, Eq)]
pub struct Method {
    pub name: String,
    pub kind: MethodKind,
    pub input_type: String,
}

/// A named service, its methods in declaration order.
#[derive(Debug, Clone, PartialEq, Eq)]
pub struct Service {
    pub name: String,
    pub methods: Vec<Method>,
}

/// One normalized schema file.
#[derive(Debug, Clone, PartialEq, Eq)]
pub struct Proto {
    pub name: String,
    pub package: String,
    pub services: Vec<Service>,
    pub messages: Vec<Message>,
}

/// The mathematical value of a `Field`.
pub struct FieldModel {
    pub name: Seq<char>,
    pub field_type: FieldKind,
    pub cardinality: Cardinality,
}

/// The mathematical value of a `Message`.
pub struct MessageModel {
    pub name: Seq<char>,
    pub fields: Seq<FieldModel>,
}

/// The mathematical value of a `Method`.
pub struct MethodModel {
    pub name: Seq<char>,
    pub kind: MethodKind,
    pub input_type: Seq<char>,
}

/// The mathematical value of a `Service`.
pub struct ServiceModel {
    pub name: Seq<char>,
    pub methods: Seq<MethodModel>,
}

/// The mathematical value of a `Proto`.
pub struct ProtoModel {
    pub name: Seq<char>,
    pub package: Seq<char>,
    pub services: Seq<ServiceModel>,
    pub messages: Seq<MessageModel>,
}

impl View for Field {
    type V = FieldModel;

    open spec fn view(&self) -> FieldModel {
        FieldModel { name: self.name@, field_type: self.field_type, cardinality: self.cardinality }
    }
}

impl View for Message {
    type V = MessageModel;

    open spec fn view(&self) -> MessageModel {
        MessageModel { name: self.name@, fields: self.fields@.map_values(|f: Field| f@) }
    }
}

impl View for Method {
    type V = MethodModel;

    open spec fn view(&self) -> MethodModel {
        MethodModel { name: self.name@, kind: self.kind, input_type: self.input_type@ }
    }
}

impl View for Service {
    type V = ServiceModel;

    open spec fn view(&self) -> ServiceModel {
        ServiceModel { name: self.name@, methods: self.methods@.map_values(|m: Method| m@) }
    }
}

impl View for Proto {
    type V = ProtoModel;

    open spec fn view(&self) -> ProtoModel {
        ProtoModel {
            name: self.name@,
            package: self.package@,
            services: self.services@.map_values(|s: Service| s@),
            messages: self.messages@.map_values(|m: Message| m@),
        }
    }
}

impl FieldModel {
    /// Whether the field holds at most one value.
    pub open spec fn optional(self) -> bool {
        self.cardinality == Cardinality::Singular
    }

    /// Whether the field holds a sequence of values.
    pub open spec fn repeated(self) -> bool {
        self.cardinality == Cardinality::Repeated
    }
}

impl Field {
    /// Whether the field holds at most one value.
    pub fn optional(&self) -> (r: bool)
        ensures
            r == self@.optional(),
    {
        match self.cardinality {
            Cardinality::Singular => true,
            _ => false,
        }
    }

    /// Whether the field holds a sequence of values.
    pub fn repeated(&self) -> (r: bool)
        ensures
            r == self@.repeated(),
    {
        match self.cardinality {
            Cardinality::Repeated => true,
            _ => false,
        }
    }
}

} // verus!
