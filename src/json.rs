use vstd::prelude::*;

verus! {

/// A JSON number as it stands on the wire: an integer that fits in `i64`,
/// or any other number kept as its decimal text.
///
/// A `Decimal` is meant to hold JSON number text, as every number read from JSON
/// does. Text that is no JSON number is written out as `null`, which no number field
/// reads back.
#[derive(Debug, Clone, PartialEq)]
pub enum JsonNumber {
    Int(i64),
    Decimal(String),
}

/// A JSON document.
#[derive(Debug)]
pub enum Json {
    Null,
    Bool(bool),
    Number(JsonNumber),
    Str(String),
    Array(Vec<Json>),
    Object(Vec<(String, Json)>),
}

/// The mathematical model of a JSON document.
pub enum JValue {
    Null,
    Bool(bool),
    Int(int),
    Decimal(Seq<char>),
    Str(Seq<char>),
    Arr(Seq<JValue>),
    Obj(Seq<(Seq<char>, JValue)>),
}

/// Why a JSON document could not be read as a protocol value.
#[derive(Debug, Clone, PartialEq)]
pub enum DecodeError {
    /// The text is not a JSON document.
    Syntax,
    /// A field is missing, or a value has the wrong shape.
    Mismatch,
    /// A tagged union's `type` names no variant of it.
    UnknownVariant { union_name: String, tag: String },
}

impl View for Json {
    type V = JValue;

    open spec fn view(&self) -> JValue {
        self.model()
    }
}

impl Json {
    /// The model of this document.
    pub open spec fn model(&self) -> JValue
        decreases self,
    {
        match self {
            Json::Null => JValue::Null,
            Json::Bool(b) => JValue::Bool(*b),
            Json::Number(JsonNumber::Int(n)) => JValue::Int(*n as int),
            Json::Number(JsonNumber::Decimal(s)) => JValue::Decimal(s@),
            Json::Str(s) => JValue::Str(s@),
            Json::Array(v) => JValue::Arr(elems_view(v@)),
            Json::Object(v) => JValue::Obj(members_view(v@)),
        }
    }
}

/// The model of the elements of an array, in order.
pub open spec fn elems_view(s: Seq<Json>) -> Seq<JValue>
    decreases s,
{
    if s.len() == 0 {
        Seq::empty()
    } else {
        elems_view(s.drop_last()).push(s.last().model())
    }
}

/// The model of the members of an object, in order.
pub open spec fn members_view(s: Seq<(String, Json)>) -> Seq<(Seq<char>, JValue)>
    decreases s,
{
    if s.len() == 0 {
        Seq::empty()
    } else {
        members_view(s.drop_last()).push((s.last().0@, s.last().1.model()))
    }
}

pub proof fn lemma_elems_view(s: Seq<Json>)
    ensures
        elems_view(s).len() == s.len(),
        forall|i: int| 0 <= i < s.len() ==> #[trigger] elems_view(s)[i] == s[i]@,
    decreases s.len(),
{
    if s.len() > 0 {
        lemma_elems_view(s.drop_last());
    }
}

pub proof fn lemma_members_view(s: Seq<(String, Json)>)
    ensures
        members_view(s).len() == s.len(),
        forall|i: int| 0 <= i < s.len() ==> #[trigger] members_view(s)[i] == (s[i].0@, s[i].1@),
    decreases s.len(),
{
    if s.len() > 0 {
        lemma_members_view(s.drop_last());
    }
}

/// The value of the first member named `key`.
pub open spec fn lookup(m: Seq<(Seq<char>, JValue)>, key: Seq<char>) -> Option<JValue>
    decreases m.len(),
{
    if m.len() == 0 {
        None
    } else if m[0].0 == key {
        Some(m[0].1)
    } else {
        lookup(m.drop_first(), key)
    }
}

/// Looking a name up in two member lists one after the other.
pub broadcast proof fn lemma_lookup_concat(
    a: Seq<(Seq<char>, JValue)>,
    b: Seq<(Seq<char>, JValue)>,
    key: Seq<char>,
)
    ensures
        #[trigger] lookup(a + b, key) == match lookup(a, key) {
            Some(x) => Some(x),
            None => lookup(b, key),
        },
    decreases a.len(),
{
    if a.len() > 0 {
        assert((a + b).drop_first() =~= a.drop_first() + b);
        lemma_lookup_concat(a.drop_first(), b, key);
    } else {
        assert(a + b =~= b);
    }
}

/// Looking a name up in a list of one member.
pub broadcast proof fn lemma_lookup_single(name: Seq<char>, v: JValue, key: Seq<char>)
    ensures
        #[trigger] lookup(seq![(name, v)], key) == if name == key {
            Some(v)
        } else {
            None
        },
{
    assert(seq![(name, v)].drop_first() =~= Seq::<(Seq<char>, JValue)>::empty());
    assert(lookup(Seq::<(Seq<char>, JValue)>::empty(), key) is None);
}

/// The member `key` of an object; nothing for any other value.
pub open spec fn field(j: JValue, key: Seq<char>) -> Option<JValue> {
    match j {
        JValue::Obj(m) => lookup(m, key),
        _ => None,
    }
}

/// Tells whether two strings hold the same characters.
pub fn same_text(a: &str, b: &str) -> (r: bool)
    ensures
        r == (a@ == b@),
{
    a.to_owned() == b.to_owned()
}

impl Json {
    /// The member `key` of an object, the first one where the name repeats.
    pub fn get(&self, key: &str) -> (r: Option<&Json>)
        ensures
            match r {
                Some(x) => field(self@, key@) == Some(x@),
                None => field(self@, key@) is None,
            },
    {
        match self {
            Json::Object(v) => {
                proof {
                    lemma_members_view(v@);
                }
                let ghost m = members_view(v@);
                let mut i: usize = 0;
                assert(m.skip(0) =~= m);
                assert(self@ == JValue::Obj(m));
                while i < v.len()
                    invariant
                        0 <= i <= v.len(),
                        m == members_view(v@),
                        self@ == JValue::Obj(m),
                        m.len() == v@.len(),
                        forall|k: int| 0 <= k < v@.len() ==> #[trigger] m[k] == (v@[k].0@, v@[k].1@),
                        lookup(m, key@) == lookup(m.skip(i as int), key@),
                    decreases v.len() - i,
                {
                    let ghost rest = m.skip(i as int);
                    assert(rest.drop_first() =~= m.skip(i + 1));
                    assert(rest[0] == m[i as int]);
                    if same_text(v[i].0.as_str(), key) {
                        assert(lookup(rest, key@) == Some(rest[0].1));
                        return Some(&v[i].1);
                    }
                    i = i + 1;
                }
                None
            },
            _ => None,
        }
    }

    /// Tells whether this document is an object.
    pub fn is_object(&self) -> (r: bool)
        ensures
            r == (self@ is Obj),
    {
        match self {
            Json::Object(_) => true,
            _ => false,
        }
    }

    /// A copy of this document.
    pub fn copy(&self) -> (r: Json)
        ensures
            r@ == self@,
        decreases self,
    {
        match self {
            Json::Null => Json::Null,
            Json::Bool(b) => Json::Bool(*b),
            Json::Number(JsonNumber::Int(n)) => Json::Number(JsonNumber::Int(*n)),
            Json::Number(JsonNumber::Decimal(s)) => Json::Number(JsonNumber::Decimal(s.clone())),
            Json::Str(s) => Json::Str(s.clone()),
            Json::Array(v) => {
                let mut out: Vec<Json> = Vec::new();
                let mut i: usize = 0;
                while i < v.len()
                    invariant
                        0 <= i <= v.len(),
                        *self == Json::Array(*v),
                        out@.len() == i,
                        forall|k: int| 0 <= k < i ==> out@[k]@ == v@[k]@,
                    decreases v.len() - i,
                {
                    proof {
                        let ghost sv = *self;
                        assert(decreases_to!(sv => sv->Array_0));
                        vstd::std_specs::vec::axiom_vec_index_decreases(*v, i as int);
                        assert(decreases_to!(*v => v[i as int]));
                    }
                    out.push(v[i].copy());
                    i = i + 1;
                }
                proof {
                    lemma_elems_view(out@);
                    lemma_elems_view(v@);
                    assert(elems_view(out@) =~= elems_view(v@));
                }
                Json::Array(out)
            },
            Json::Object(v) => {
                let mut out: Vec<(String, Json)> = Vec::new();
                let mut i: usize = 0;
                while i < v.len()
                    invariant
                        0 <= i <= v.len(),
                        *self == Json::Object(*v),
                        out@.len() == i,
                        forall|k: int| 0 <= k < i ==> out@[k].0@ == v@[k].0@ && out@[k].1@ == v@[k].1@,
                    decreases v.len() - i,
                {
                    proof {
                        let ghost sv = *self;
                        assert(decreases_to!(sv => sv->Object_0));
                        vstd::std_specs::vec::axiom_vec_index_decreases(*v, i as int);
                        assert(decreases_to!(*v => v[i as int]));
                    }
                    out.push((v[i].0.clone(), v[i].1.copy()));
                    i = i + 1;
                }
                proof {
                    lemma_members_view(out@);
                    lemma_members_view(v@);
                    assert(members_view(out@) =~= members_view(v@));
                }
                Json::Object(out)
            },
        }
    }
}

impl Clone for Json {
    fn clone(&self) -> (r: Json)
        ensures
            r@ == self@,
    {
        self.copy()
    }
}

} // verus!
