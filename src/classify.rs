//! The field and method classifiers: total functions from a descriptor's raw
//! flags and tags to the closed enumerations of the schema model.
use vstd::prelude::*;

use crate::schema::{Cardinality, FieldKind, MethodKind};

verus! {

/// The field kind that a descriptor's wire-type tag stands for; every tag
/// outside `1..=18` is `Unknown`.
pub open spec fn kind_of_tag(tag: i32) -> FieldKind {
    if tag == 1 {
        FieldKind::Double
    } else if tag == 2 {
        FieldKind::Float
    } else if tag == 3 {
        FieldKind::Int64
    } else if tag == 4 {
        FieldKind::Uint64
    } else if tag == 5 {
        FieldKind::Int32
    } else if tag == 6 {
        FieldKind::Fixed64
    } else if tag == 7 {
        FieldKind::Fixed32
    } else if tag == 8 {
        FieldKind::Bool
    } else if tag == 9 {
        FieldKind::String
    } else if tag == 10 {
        FieldKind::Group
    } else if tag == 11 {
        FieldKind::Message
    } else if tag == 12 {
        FieldKind::Bytes
    } else if tag == 13 {
        FieldKind::Uint32
    } else if tag == 14 {
        FieldKind::Enum
    } else if tag == 15 {
        FieldKind::Sfixed32
    } else if tag == 16 {
        FieldKind::Sfixed64
    } else if tag == 17 {
        FieldKind::Sint32
    } else if tag == 18 {
        FieldKind::Sint64
    } else {
        FieldKind::Unknown
    }
}

/// The wire-type tag of a field kind; `0` for `Unknown`.
pub open spec fn tag_of_kind(k: FieldKind) -> i32 {
    match k {
        FieldKind::Unknown => 0,
        FieldKind::Double => 1,
        FieldKind::Float => 2,
        FieldKind::Int64 => 3,
        FieldKind::Uint64 => 4,
        FieldKind::Int32 => 5,
        FieldKind::Fixed64 => 6,
        FieldKind::Fixed32 => 7,
        FieldKind::Bool => 8,
        FieldKind::String => 9,
        FieldKind::Group => 10,
        FieldKind::Message => 11,
        FieldKind::Bytes => 12,
        FieldKind::Uint32 => 13,
        FieldKind::Enum => 14,
        FieldKind::Sfixed32 => 15,
        FieldKind::Sfixed64 => 16,
        FieldKind::Sint32 => 17,
        FieldKind::Sint64 => 18,
    }
}

/// The cardinality of a field whose descriptor answers `singular` and
/// `repeated`: a repeated field is never singular, and a field that is
/// neither (a map) is keyed.
pub open spec fn cardinality_of_flags(singular: bool, repeated: bool) -> Cardinality {
    if repeated {
        Cardinality::Repeated
    } else if singular {
        Cardinality::Singular
    } else {
        Cardinality::Keyed
    }
}

/// The call shape of a method, from its two streaming flags.
pub open spec fn kind_of_streaming(client: bool, server: bool) -> MethodKind {
    match (client, server) {
        (false, false) => MethodKind::Unary,
        (true, false) => MethodKind::ClientStreaming,
        (false, true) => MethodKind::ServerStreaming,
        (true, true) => MethodKind::BidirectionalStreaming,
    }
}

impl FieldKind {
    /// Classifies a wire-type tag; tags that name no kind give `Unknown`.
    pub fn from_type_tag(tag: i32) -> (r: FieldKind)
        ensures
            r == kind_of_tag(tag),
    {
        match tag {
            1 => FieldKind::Double,
            2 => FieldKind::Float,
            3 => FieldKind::Int64,
            4 => FieldKind::Uint64,
            5 => FieldKind::Int32,
            6 => FieldKind::Fixed64,
            7 => FieldKind::Fixed32,
            8 => FieldKind::Bool,
            9 => FieldKind::String,
            10 => FieldKind::Group,
            11 => FieldKind::Message,
            12 => FieldKind::Bytes,
            13 => FieldKind::Uint32,
            14 => FieldKind::Enum,
            15 => FieldKind::Sfixed32,
            16 => FieldKind::Sfixed64,
            17 => FieldKind::Sint32,
            18 => FieldKind::Sint64,
            _ => FieldKind::Unknown,
        }
    }
}

impl Cardinality {
    /// Classifies a field's two cardinality flags into one cardinality.
    pub fn from_flags(singular: bool, repeated: bool) -> (r: Cardinality)
        ensures
            r == cardinality_of_flags(singular, repeated),
    {
        if repeated {
            Cardinality::Repeated
        } else if singular {
            Cardinality::Singular
        } else {
            Cardinality::Keyed
        }
    }
}

impl MethodKind {
    /// Classifies a method by its client- and server-streaming flags.
    pub fn from_streaming(client_streaming: bool, server_streaming: bool) -> (r: MethodKind)
        ensures
            r == kind_of_streaming(client_streaming, server_streaming),
    {
        match (client_streaming, server_streaming) {
            (false, false) => MethodKind::Unary,
            (true, false) => MethodKind::ClientStreaming,
            (false, true) => MethodKind::ServerStreaming,
            (true, true) => MethodKind::BidirectionalStreaming,
        }
    }
}

/// Method classification over its whole truth table: neither flag is unary,
/// client only is client streaming, server only is server streaming, both is
/// bidirectional; so distinct flag pairs give distinct kinds, none `Unknown`.
pub proof fn lemma_streaming_truth_table(c1: bool, s1: bool, c2: bool, s2: bool)
    ensures
        kind_of_streaming(false, false) == MethodKind::Unary,
        kind_of_streaming(true, false) == MethodKind::ClientStreaming,
        kind_of_streaming(false, true) == MethodKind::ServerStreaming,
        kind_of_streaming(true, true) == MethodKind::BidirectionalStreaming,
        kind_of_streaming(c1, s1) != MethodKind::Unknown,
        kind_of_streaming(c1, s1) == kind_of_streaming(c2, s2) ==> c1 == c2 && s1 == s2,
{
}

/// The tag classification is one to one: each kind is given by exactly its
/// own tag, and every tag from 1 to 18 names a kind other than `Unknown`.
pub proof fn lemma_tag_round_trip(k: FieldKind, tag: i32)
    ensures
        kind_of_tag(tag_of_kind(k)) == k,
        1 <= tag <= 18 ==> kind_of_tag(tag) != FieldKind::Unknown && tag_of_kind(kind_of_tag(tag))
            == tag,
        !(1 <= tag <= 18) ==> kind_of_tag(tag) == FieldKind::Unknown,
{
}

} // verus!
