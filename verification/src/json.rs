use vstd::prelude::*;

verus! {

// A structured document model for action arguments. The document shape is
// fixed by the action variant: an object whose values are strings, unsigned
// numbers, or one nested object of such scalars (the access key descriptor).
// Amount-valued fields never appear as numbers; they are decimal strings.

/// A scalar member of a nested object.
#[derive(Clone, Debug, PartialEq, Eq)]
pub enum JsonLeaf {
    Str(String),
    U64(u64),
}

/// A value of a top-level document member.
#[derive(Clone, Debug, PartialEq, Eq)]
pub enum JsonValue {
    Str(String),
    U64(u64),
    Obj(Vec<(String, JsonLeaf)>),
}

/// An argument document: an ordered list of members with distinct keys.
#[derive(Clone, Debug, PartialEq, Eq)]
pub struct JsonDoc {
    pub entries: Vec<(String, JsonValue)>,
}

/// Mathematical content of a scalar member.
#[verifier::ext_equal]
pub enum JsonLeafModel {
    Str(Seq<char>),
    U64(u64),
}

/// Mathematical content of a document member value.
#[verifier::ext_equal]
pub enum JsonValueModel {
    Str(Seq<char>),
    U64(u64),
    Obj(Seq<(Seq<char>, JsonLeafModel)>),
}

impl JsonLeaf {
    pub open spec fn model(&self) -> JsonLeafModel {
        match self {
            JsonLeaf::Str(s) => JsonLeafModel::Str(s@),
            JsonLeaf::U64(n) => JsonLeafModel::U64(*n),
        }
    }
}

impl JsonValue {
    pub open spec fn model(&self) -> JsonValueModel {
        match self {
            JsonValue::Str(s) => JsonValueModel::Str(s@),
            JsonValue::U64(n) => JsonValueModel::U64(*n),
            JsonValue::Obj(members) => JsonValueModel::Obj(
                members@.map_values(|m: (String, JsonLeaf)| (m.0@, m.1.model())),
            ),
        }
    }
}

impl JsonDoc {
    pub open spec fn model(&self) -> Seq<(Seq<char>, JsonValueModel)> {
        self.entries@.map_values(|m: (String, JsonValue)| (m.0@, m.1.model()))
    }
}

} // verus!
