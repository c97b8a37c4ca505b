//! Flat JSON objects: the raw records that the codec reads and writes.
//!
//! A record is a sequence of fields in the order in which they were written.
//! Only what the codec reads is kept apart: texts, whole numbers, booleans and
//! null. Every other value stands as [`JsonValue::Opaque`].

use vstd::prelude::*;

verus! {

/// One JSON value, as far as a flat record needs it.
#[derive(Debug, Clone, PartialEq, Eq)]
pub enum JsonValue {
    Null,
    Bool(bool),
    /// A number without a fraction that fits in 64 bits.
    Int(i64),
    Text(String),
    /// A number with a fraction or out of range, an array or a nested object.
    Opaque,
}

/// The mathematical value of a [`JsonValue`].
pub enum JsonModel {
    Null,
    Bool(bool),
    Int(int),
    Text(Seq<char>),
    Opaque,
}

impl View for JsonValue {
    type V = JsonModel;

    open spec fn view(&self) -> JsonModel {
        match self {
            JsonValue::Null => JsonModel::Null,
            JsonValue::Bool(b) => JsonModel::Bool(*b),
            JsonValue::Int(n) => JsonModel::Int(*n as int),
            JsonValue::Text(s) => JsonModel::Text(s@),
            JsonValue::Opaque => JsonModel::Opaque,
        }
    }
}

/// One field of a record: a key and its value.
#[derive(Debug, Clone, PartialEq, Eq)]
pub struct Field {
    pub key: String,
    pub value: JsonValue,
}

/// The mathematical value of a [`Field`].
pub struct FieldModel {
    pub key: Seq<char>,
    pub value: JsonModel,
}

impl View for Field {
    type V = FieldModel;

    open spec fn view(&self) -> FieldModel {
        FieldModel { key: self.key@, value: self.value@ }
    }
}

/// A flat JSON object: its fields, in order.
#[derive(Debug, Clone, PartialEq, Eq)]
pub struct JsonObject {
    pub fields: Vec<Field>,
}

impl View for JsonObject {
    type V = Seq<FieldModel>;

    open spec fn view(&self) -> Seq<FieldModel> {
        Seq::new(self.fields@.len(), |i: int| self.fields@[i]@)
    }
}

/// The value of the first field of `fields` whose key is `key`, if there is
/// one.
pub open spec fn lookup(fields: Seq<FieldModel>, key: Seq<char>) -> Option<JsonModel>
    decreases fields.len(),
{
    if fields.len() == 0 {
        None
    } else if fields[0].key == key {
        Some(fields[0].value)
    } else {
        lookup(fields.drop_first(), key)
    }
}

/// A lookup passes over a leading run of fields with other keys.
pub proof fn lemma_lookup_skip(fields: Seq<FieldModel>, key: Seq<char>, n: int)
    requires
        0 <= n <= fields.len(),
        forall|i: int| 0 <= i < n ==> (#[trigger] fields[i]).key != key,
    ensures
        lookup(fields, key) == lookup(fields.skip(n), key),
    decreases n,
{
    if n == 0 {
        assert(fields.skip(0) =~= fields);
    } else {
        let rest = fields.drop_first();
        assert(fields[0].key != key);
        assert forall|i: int| 0 <= i < n - 1 implies (#[trigger] rest[i]).key != key by {
            assert(rest[i] == fields[i + 1]);
        }
        lemma_lookup_skip(rest, key, n - 1);
        assert(rest.skip(n - 1) =~= fields.skip(n));
    }
}

impl JsonObject {
    /// An object without fields.
    pub fn new() -> (object: JsonObject)
        ensures
            object@ == Seq::<FieldModel>::empty(),
    {
        let object = JsonObject { fields: Vec::new() };
        assert(object@ =~= Seq::<FieldModel>::empty());
        object
    }

    /// Appends a field. An earlier field with the same key keeps precedence
    /// in a lookup.
    pub fn push(&mut self, key: &str, value: JsonValue)
        ensures
            final(self)@ == old(self)@.push(FieldModel { key: key@, value: value@ }),
    {
        let field = Field { key: String::from_str(key), value };
        self.fields.push(field);
        assert(self@ =~= old(self)@.push(FieldModel { key: key@, value: value@ }));
    }

    /// The number of fields.
    pub fn len(&self) -> (n: usize)
        ensures
            n == self@.len(),
    {
        self.fields.len()
    }

    /// The value of the first field whose key is `key`, if there is one.
    pub fn get(&self, key: &str) -> (found: Option<&JsonValue>)
        ensures
            match found {
                Some(value) => lookup(self@, key@) == Some(value@),
                None => lookup(self@, key@).is_none(),
            },
    {
        let wanted = String::from_str(key);
        let mut i: usize = 0;
        while i < self.fields.len()
            invariant
                i <= self.fields.len(),
                wanted@ == key@,
                forall|j: int| 0 <= j < i ==> (#[trigger] self@[j]).key != key@,
            decreases self.fields.len() - i,
        {
            if self.fields[i].key == wanted {
                proof {
                    lemma_lookup_skip(self@, key@, i as int);
                    assert(self@.skip(i as int)[0] == self@[i as int]);
                }
                return Some(&self.fields[i].value);
            }
            i += 1;
        }
        proof {
            lemma_lookup_skip(self@, key@, i as int);
            assert(self@.skip(i as int).len() == 0);
        }
        None
    }
}

} // verus!
