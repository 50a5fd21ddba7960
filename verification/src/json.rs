//! The wire document model.
//!
//! Every frame and every call body on the wire is a JSON document whose
//! numbers are signed 64-bit integers.  [`JsonValue`] is the executable
//! document tree; [`JsonModel`] is its mathematical image, in which strings
//! are character sequences.  All codec contracts are stated over the model.

use vstd::prelude::*;

verus! {

/// One JSON document node, as held at run time.
///
/// Numbers are restricted to signed 64-bit integers: every field of the wire
/// protocol is an integer, a boolean or a string, so fractions and exponents
/// are treated as malformed input by the parser.
#[derive(Debug)]
pub enum JsonValue {
    Null,
    Bool(bool),
    Int(i64),
    Str(String),
    Arr(Vec<JsonValue>),
    Obj(Vec<(String, JsonValue)>),
}

/// The mathematical image of a document: strings become `Seq<char>`,
/// integers become `int`, vectors become `Seq`.
pub enum JsonModel {
    Null,
    Bool(bool),
    Int(int),
    Str(Seq<char>),
    Arr(Seq<JsonModel>),
    Obj(Seq<(Seq<char>, JsonModel)>),
}

/// The model of a document tree.
pub open spec fn jv_model(v: JsonValue) -> JsonModel
    decreases v,
{
    match v {
        JsonValue::Null => JsonModel::Null,
        JsonValue::Bool(b) => JsonModel::Bool(b),
        JsonValue::Int(i) => JsonModel::Int(i as int),
        JsonValue::Str(s) => JsonModel::Str(s@),
        JsonValue::Arr(items) => JsonModel::Arr(jv_model_seq(items@)),
        JsonValue::Obj(fields) => JsonModel::Obj(jv_model_fields(fields@)),
    }
}

/// The models of the elements of an array, in order.
pub open spec fn jv_model_seq(s: Seq<JsonValue>) -> Seq<JsonModel>
    decreases s,
{
    if s.len() == 0 {
        Seq::empty()
    } else {
        jv_model_seq(s.drop_last()).push(jv_model(s.last()))
    }
}

/// The models of the members of an object, in order.
pub open spec fn jv_model_fields(s: Seq<(String, JsonValue)>) -> Seq<(Seq<char>, JsonModel)>
    decreases s,
{
    if s.len() == 0 {
        Seq::empty()
    } else {
        jv_model_fields(s.drop_last()).push((s.last().0@, jv_model(s.last().1)))
    }
}

/// `jv_model_seq` maps the sequence pointwise.
pub proof fn lemma_jv_model_seq(s: Seq<JsonValue>)
    ensures
        jv_model_seq(s).len() == s.len(),
        forall|i: int| 0 <= i < s.len() ==> jv_model_seq(s)[i] == jv_model(s[i]),
    decreases s.len(),
{
    if s.len() > 0 {
        lemma_jv_model_seq(s.drop_last());
    }
}

/// `jv_model_fields` maps the sequence pointwise.
pub proof fn lemma_jv_model_fields(s: Seq<(String, JsonValue)>)
    ensures
        jv_model_fields(s).len() == s.len(),
        forall|i: int| 0 <= i < s.len() ==> jv_model_fields(s)[i]
            == (s[i].0@, jv_model(s[i].1)),
    decreases s.len(),
{
    if s.len() > 0 {
        lemma_jv_model_fields(s.drop_last());
    }
}

/// First member of a document object with the given key, if any.
pub open spec fn spec_get(fields: Seq<(String, JsonValue)>, key: Seq<char>) -> Option<JsonValue>
    decreases fields.len(),
{
    if fields.len() == 0 {
        None
    } else if fields[0].0@ == key {
        Some(fields[0].1)
    } else {
        spec_get(fields.skip(1), key)
    }
}

/// Lookup finds the member at `i` when no earlier member has the key.
pub proof fn lemma_get_at(fields: Seq<(String, JsonValue)>, key: Seq<char>, i: int)
    requires
        0 <= i < fields.len(),
        fields[i].0@ == key,
        forall|j: int| 0 <= j < i ==> fields[j].0@ != key,
    ensures
        spec_get(fields, key) == Some(fields[i].1),
    decreases i,
{
    if i > 0 {
        lemma_get_at(fields.skip(1), key, i - 1);
    }
}

/// Lookup misses when no member has the key.
pub proof fn lemma_get_none(fields: Seq<(String, JsonValue)>, key: Seq<char>)
    requires
        forall|j: int| 0 <= j < fields.len() ==> fields[j].0@ != key,
    ensures
        spec_get(fields, key) is None,
    decreases fields.len(),
{
    if fields.len() > 0 {
        lemma_get_none(fields.skip(1), key);
    }
}

/// The member of an object with the given key; `None` on any other node.
pub open spec fn spec_obj_get(v: JsonValue, key: Seq<char>) -> Option<JsonValue> {
    match v {
        JsonValue::Obj(fields) => spec_get(fields@, key),
        _ => None,
    }
}

/// Equality of two string slices, decided character by character.
pub fn str_eq(a: &str, b: &str) -> (r: bool)
    ensures
        r == (a@ == b@),
{
    let la = a.unicode_len();
    let lb = b.unicode_len();
    if la != lb {
        return false;
    }
    let mut i: usize = 0;
    while i < la
        invariant
            la == a@.len(),
            la == b@.len(),
            i <= la,
            forall|j: int| 0 <= j < i ==> a@[j] == b@[j],
        decreases la - i,
    {
        if a.get_char(i) != b.get_char(i) {
            return false;
        }
        i += 1;
    }
    proof {
        assert(a@ =~= b@);
    }
    true
}

impl JsonValue {
    /// Takes the member of this object with the given key out of the tree,
    /// or `None` when this is not an object or has no such member.
    #[verifier::loop_isolation(false)]
    pub fn take_field(self, key: &str) -> (r: Option<JsonValue>)
        ensures
            match r {
                Some(d) => spec_obj_get(self, key@) == Some(d),
                None => spec_obj_get(self, key@) is None,
            },
    {
        let ghost orig = self;
        match self {
            JsonValue::Obj(mut fields) => {
                let ghost ofields = fields@;
                proof {
                    assert(orig == JsonValue::Obj(fields));
                    assert(spec_obj_get(orig, key@) == spec_get(ofields, key@));
                    assert(ofields.skip(0) =~= ofields);
                }
                let n = fields.len();
                let mut i: usize = 0;
                while i < n
                    invariant
                        fields@ == ofields,
                        n == ofields.len(),
                        i <= n,
                        spec_get(ofields.skip(i as int), key@) == spec_get(ofields, key@),
                    decreases n - i,
                {
                    if str_eq(fields[i].0.as_str(), key) {
                        proof {
                            assert(ofields.skip(i as int)[0] == ofields[i as int]);
                            assert(ofields.skip(i as int).len() > 0);
                            assert(spec_get(ofields.skip(i as int), key@) == Some(
                                ofields[i as int].1,
                            ));
                        }
                        let pair = fields.remove(i);
                        return Some(pair.1);
                    }
                    proof {
                        assert(ofields.skip(i as int).skip(1) =~= ofields.skip(i + 1));
                    }
                    i += 1;
                }
                proof {
                    assert(ofields.skip(n as int) =~= Seq::<(String, JsonValue)>::empty());
                }
                None
            },
            _ => None,
        }
    }

    /// The member of this object with the given key, or `None` when this is
    /// not an object or has no such member.
    #[verifier::loop_isolation(false)]
    pub fn get<'a>(&'a self, key: &str) -> (r: Option<&'a JsonValue>)
        ensures
            match r {
                Some(v) => spec_obj_get(*self, key@) == Some(*v),
                None => spec_obj_get(*self, key@) is None,
            },
    {
        match self {
            JsonValue::Obj(fields) => {
                let n = fields.len();
                proof {
                    assert(fields@.skip(0) =~= fields@);
                }
                let mut i: usize = 0;
                while i < n
                    invariant
                        n == fields@.len(),
                        i <= n,
                        spec_get(fields@.skip(i as int), key@) == spec_get(fields@, key@),
                    decreases n - i,
                {
                    if str_eq(fields[i].0.as_str(), key) {
                        proof {
                            assert(fields@.skip(i as int)[0] == fields@[i as int]);
                            assert(fields@.skip(i as int).len() > 0);
                            assert(spec_get(fields@.skip(i as int), key@) == Some(
                                fields@[i as int].1,
                            ));
                        }
                        return Some(&fields[i].1);
                    }
                    proof {
                        assert(fields@.skip(i as int).skip(1) =~= fields@.skip(i + 1));
                    }
                    i += 1;
                }
                proof {
                    assert(fields@.skip(n as int) =~= Seq::<(String, JsonValue)>::empty());
                }
                None
            },
            _ => None,
        }
    }
}

} // verus!
