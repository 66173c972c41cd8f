//! The descriptor reducer: turns a parsed file descriptor into a `Proto`,
//! classifying every field and method and keeping declaration order, and
//! does so for a batch of files.
use vstd::prelude::*;

use crate::classify::{cardinality_of_flags, kind_of_streaming, kind_of_tag};
use crate::descriptor::{
    FieldDescriptor, FieldDescriptorModel, FileDescriptor, FileDescriptorModel, MessageDescriptor,
    MessageDescriptorModel, MethodDescriptor, MethodDescriptorModel, ServiceDescriptor,
    ServiceDescriptorModel,
};
use crate::schema::{
    Cardinality, Field, FieldKind, FieldModel, Message, MessageModel, Method, MethodKind,
    MethodModel, Proto, ProtoModel, Service, ServiceModel,
};

verus! {

/// The field that a field descriptor reduces to.
pub open spec fn reduce_field(d: FieldDescriptorModel) -> FieldModel {
    FieldModel {
        name: d.name,
        field_type: kind_of_tag(d.type_tag),
        cardinality: cardinality_of_flags(d.singular, d.repeated),
    }
}

/// The message that a message descriptor reduces to: its fields one for one.
pub open spec fn reduce_message(d: MessageDescriptorModel) -> MessageModel {
    MessageModel { name: d.name, fields: d.fields.map_values(|f: FieldDescriptorModel| reduce_field(f)) }
}

/// The method that a method descriptor reduces to.
pub open spec fn reduce_method(d: MethodDescriptorModel) -> MethodModel {
    MethodModel {
        name: d.name,
        kind: kind_of_streaming(d.client_streaming, d.server_streaming),
        input_type: d.input_type,
    }
}

/// The service that a service descriptor reduces to: its methods one for one.
pub open spec fn reduce_service(d: ServiceDescriptorModel) -> ServiceModel {
    ServiceModel {
        name: d.name,
        methods: d.methods.map_values(|m: MethodDescriptorModel| reduce_method(m)),
    }
}

/// A message and every message type declared inside it, at any depth, in
/// pre-order: the message first, then each nested type's own list in
/// declaration order.
pub open spec fn flatten_message(d: MessageDescriptorModel) -> Seq<MessageModel>
    decreases d,
{
    seq![reduce_message(d)] + flatten_messages(d.nested)
}

/// The pre-order lists of a sequence of messages, one after another.
pub open spec fn flatten_messages(ds: Seq<MessageDescriptorModel>) -> Seq<MessageModel>
    decreases ds,
{
    if ds.len() == 0 {
        seq![]
    } else {
        flatten_messages(ds.drop_last()) + flatten_message(ds.last())
    }
}

/// The schema file that a file descriptor reduces to. Its messages are all
/// the message types of the file, nested ones included, in pre-order.
pub open spec fn reduce_file(d: FileDescriptorModel) -> ProtoModel {
    ProtoModel {
        name: d.name,
        package: d.package,
        services: d.services.map_values(|s: ServiceDescriptorModel| reduce_service(s)),
        messages: flatten_messages(d.messages),
    }
}

/// The models of a sequence of messages.
pub open spec fn message_views(v: Seq<Message>) -> Seq<MessageModel> {
    v.map_values(|m: Message| m@)
}

/// Appends `d` and the message types nested in it, in pre-order.
fn push_flattened(d: &MessageDescriptor, out: &mut Vec<Message>)
    ensures
        message_views(final(out)@) == message_views(old(out)@) + flatten_message(d@),
    decreases d,
{
    let ghost start = message_views(out@);
    let m = Message::from_descriptor_proto(d);
    out.push(m);
    assert(message_views(out@) =~= start + seq![reduce_message(d@)]);
    let mut i: usize = 0;
    while i < d.nested.len()
        invariant
            i <= d.nested@.len(),
            d@.nested.len() == d.nested@.len(),
            message_views(out@) == start + seq![reduce_message(d@)] + flatten_messages(
                d@.nested.take(i as int),
            ),
        decreases d.nested@.len() - i,
    {
        let ghost before = message_views(out@);
        push_flattened(&d.nested[i], out);
        assert(d@.nested.take(i + 1).drop_last() =~= d@.nested.take(i as int));
        assert(d@.nested.take(i + 1).last() == d.nested@[i as int]@);
        assert(message_views(out@) =~= start + seq![reduce_message(d@)] + flatten_messages(
            d@.nested.take(i + 1),
        ));
        i += 1;
    }
    assert(d@.nested.take(i as int) =~= d@.nested);
}

impl Field {
    /// Reduces one field descriptor: its name, its kind from the wire-type
    /// tag, and its cardinality from the two flags.
    pub fn from_descriptor(d: &FieldDescriptor) -> (r: Field)
        ensures
            r@ == reduce_field(d@),
    {
        Field {
            name: d.name.clone(),
            field_type: FieldKind::from_type_tag(d.type_tag),
            cardinality: Cardinality::from_flags(d.singular, d.repeated),
        }
    }
}

impl Message {
    /// Reduces one message descriptor, field by field, in order.
    pub fn from_descriptor_proto(d: &MessageDescriptor) -> (r: Message)
        ensures
            r@ == reduce_message(d@),
    {
        let mut fields: Vec<Field> = Vec::new();
        let mut i: usize = 0;
        while i < d.fields.len()
            invariant
                i <= d.fields@.len(),
                fields@.len() == i,
                forall|j: int| 0 <= j < i ==> fields@[j]@ == reduce_field(d.fields@[j]@),
            decreases d.fields@.len() - i,
        {
            fields.push(Field::from_descriptor(&d.fields[i]));
            i += 1;
        }
        let r = Message { name: d.name.clone(), fields };
        assert(r@.fields =~= reduce_message(d@).fields);
        r
    }
}

impl Method {
    /// Reduces one method descriptor: its name, its call shape from the two
    /// streaming flags, and its raw input type name.
    pub fn from_descriptor_proto(d: &MethodDescriptor) -> (r: Method)
        ensures
            r@ == reduce_method(d@),
    {
        Method {
            name: d.name.clone(),
            kind: MethodKind::from_streaming(d.client_streaming, d.server_streaming),
            input_type: d.input_type.clone(),
        }
    }
}

impl Service {
    /// Reduces one service descriptor, method by method, in order.
    pub fn from_descriptor_proto(d: &ServiceDescriptor) -> (r: Service)
        ensures
            r@ == reduce_service(d@),
    {
        let mut methods: Vec<Method> = Vec::new();
        let mut i: usize = 0;
        while i < d.methods.len()
            invariant
                i <= d.methods@.len(),
                methods@.len() == i,
                forall|j: int| 0 <= j < i ==> methods@[j]@ == reduce_method(d.methods@[j]@),
            decreases d.methods@.len() - i,
        {
            methods.push(Method::from_descriptor_proto(&d.methods[i]));
            i += 1;
        }
        let r = Service { name: d.name.clone(), methods };
        assert(r@.methods =~= reduce_service(d@).methods);
        r
    }
}

impl Proto {
    /// Reduces a whole file descriptor: its name and package, then every
    /// service and every message, each in declaration order.
    pub fn from_descriptor(d: &FileDescriptor) -> (r: Proto)
        ensures
            r@ == reduce_file(d@),
    {
        let mut services: Vec<Service> = Vec::new();
        let mut i: usize = 0;
        while i < d.services.len()
            invariant
                i <= d.services@.len(),
                services@.len() == i,
                forall|j: int| 0 <= j < i ==> services@[j]@ == reduce_service(d.services@[j]@),
            decreases d.services@.len() - i,
        {
            services.push(Service::from_descriptor_proto(&d.services[i]));
            i += 1;
        }
        let mut messages: Vec<Message> = Vec::new();
        let mut k: usize = 0;
        assert(message_views(messages@) =~= flatten_messages(d@.messages.take(0)));
        while k < d.messages.len()
            invariant
                k <= d.messages@.len(),
                d@.messages.len() == d.messages@.len(),
                message_views(messages@) == flatten_messages(d@.messages.take(k as int)),
            decreases d.messages@.len() - k,
        {
            push_flattened(&d.messages[k], &mut messages);
            assert(d@.messages.take(k + 1).drop_last() =~= d@.messages.take(k as int));
            k += 1;
        }
        assert(d@.messages.take(k as int) =~= d@.messages);
        let r = Proto { name: d.name.clone(), package: d.package.clone(), services, messages };
        assert(r@.services =~= reduce_file(d@).services);
        r
    }
}

/// Field classification is total and consistent: whatever the two flags of
/// a field descriptor, the reduced field is never both optional and repeated;
/// a repeated flag makes it repeated, and a singular flag alone optional.
pub proof fn lemma_field_never_optional_and_repeated(d: FieldDescriptorModel)
    ensures
        !(reduce_field(d).optional() && reduce_field(d).repeated()),
        d.repeated ==> reduce_field(d).repeated(),
        d.singular && !d.repeated ==> reduce_field(d).optional(),
        !d.singular && !d.repeated ==> reduce_field(d).cardinality == Cardinality::Keyed,
{
}

/// Where the `i`-th message of `ds` stands in the pre-order list of `ds`.
pub open spec fn message_position(ds: Seq<MessageDescriptorModel>, i: int) -> int {
    flatten_messages(ds.take(i)).len() as int
}

proof fn lemma_flatten_append(a: Seq<MessageDescriptorModel>, b: Seq<MessageDescriptorModel>)
    ensures
        flatten_messages(a + b) == flatten_messages(a) + flatten_messages(b),
    decreases b.len(),
{
    if b.len() == 0 {
        assert(a + b =~= a);
        assert(flatten_messages(a) + flatten_messages(b) =~= flatten_messages(a));
    } else {
        assert((a + b).drop_last() =~= a + b.drop_last());
        lemma_flatten_append(a, b.drop_last());
        assert(flatten_messages(a + b) =~= flatten_messages(a) + flatten_messages(b));
    }
}

/// The pre-order list of the `i`-th message starts at its position.
proof fn lemma_message_at_position(ds: Seq<MessageDescriptorModel>, i: int)
    requires
        0 <= i < ds.len(),
    ensures
        flatten_messages(ds) == flatten_messages(ds.take(i)) + flatten_message(ds[i])
            + flatten_messages(ds.skip(i + 1)),
        flatten_messages(ds.take(i + 1)) == flatten_messages(ds.take(i)) + flatten_message(ds[i]),
{
    assert(ds =~= ds.take(i + 1) + ds.skip(i + 1));
    lemma_flatten_append(ds.take(i + 1), ds.skip(i + 1));
    assert(ds.take(i + 1).drop_last() =~= ds.take(i));
}

/// Reduction keeps declaration order at every level: the file's services and
/// each service's methods come out one for one, in order and under their
/// names; every top-level message comes out, in order, each at its own
/// position of the file's message list and with its fields one for one.
pub proof fn lemma_order_preserved(d: FileDescriptorModel)
    ensures
        reduce_file(d).services.len() == d.services.len(),
        forall|i: int|
            0 <= i < d.services.len() ==> {
                let s = #[trigger] reduce_file(d).services[i];
                &&& s.name == d.services[i].name
                &&& s.methods.len() == d.services[i].methods.len()
                &&& forall|j: int|
                    0 <= j < s.methods.len() ==> (#[trigger] s.methods[j]).name
                        == d.services[i].methods[j].name
            },
        forall|i: int|
            0 <= i < d.messages.len() ==> {
                let p = #[trigger] message_position(d.messages, i);
                let m = reduce_file(d).messages[p];
                &&& 0 <= p < reduce_file(d).messages.len()
                &&& m == reduce_message(d.messages[i])
                &&& m.name == d.messages[i].name
                &&& m.fields.len() == d.messages[i].fields.len()
                &&& forall|j: int|
                    0 <= j < m.fields.len() ==> (#[trigger] m.fields[j]).name
                        == d.messages[i].fields[j].name
            },
        forall|i: int, k: int|
            0 <= i < k < d.messages.len() ==> message_position(d.messages, i) < message_position(
                d.messages,
                k,
            ),
{
    let ds = d.messages;
    assert forall|i: int| 0 <= i < ds.len() implies {
        let p = #[trigger] message_position(ds, i);
        &&& 0 <= p < reduce_file(d).messages.len()
        &&& reduce_file(d).messages[p] == reduce_message(ds[i])
    } by {
        lemma_message_at_position(ds, i);
    }
    assert forall|i: int, k: int| 0 <= i < k < ds.len() implies message_position(ds, i)
        < message_position(ds, k) by {
        lemma_message_at_position(ds, i);
        assert(ds.take(k) =~= ds.take(i + 1) + ds.subrange(i + 1, k));
        lemma_flatten_append(ds.take(i + 1), ds.subrange(i + 1, k));
    }
}

} // verus!
