use vstd::prelude::*;

use crate::json::{
    elems_view, field, lemma_elems_view, lemma_members_view, members_view, same_text, DecodeError,
    JValue, Json, JsonNumber,
};

verus! {

/// A member list of an object model.
pub type Members = Seq<(Seq<char>, JValue)>;

/// A protocol value with a canonical JSON form and a reading from JSON.
///
/// `read(j)` is what `j` reads as, given back in its canonical form, or nothing
/// when `j` does not read as a value of the type. Two values are the same
/// protocol value exactly when their canonical forms are equal.
pub trait Wire: Sized {
    spec fn wire(&self) -> JValue;

    spec fn read(j: JValue) -> Option<JValue>;

    fn to_json(&self) -> (r: Json)
        ensures
            r@ == self.wire(),
    ;

    fn from_json(j: &Json) -> (r: Result<Self, DecodeError>)
        ensures
            match r {
                Ok(v) => Self::read(j@) == Some(v.wire()),
                Err(_) => Self::read(j@) is None,
            },
    ;
}

/// The empty member list every object form starts from.
pub open spec fn begin() -> Members {
    Seq::empty()
}

/// The object made of `m`, where every part of it was read.
pub open spec fn obj(m: Option<Members>) -> Option<JValue> {
    match m {
        Some(m) => Some(JValue::Obj(m)),
        None => None,
    }
}

/// Two member lists one after the other, where both were read.
pub open spec fn cat(a: Option<Members>, b: Option<Members>) -> Option<Members> {
    match (a, b) {
        (Some(a), Some(b)) => Some(a + b),
        _ => None,
    }
}

/// The `type` member of a tagged union's variant.
pub open spec fn tag_ent(t: Seq<char>) -> Members {
    seq![("type"@, JValue::Str(t))]
}

/// The string in the member `type`, if there is one.
pub open spec fn tag_of(j: JValue) -> Option<Seq<char>> {
    match field(j, "type"@) {
        Some(JValue::Str(t)) => Some(t),
        _ => None,
    }
}

/// A member that is always written.
pub open spec fn ent<T: Wire>(key: Seq<char>, v: T) -> Members {
    seq![(key, v.wire())]
}

/// A member that is left out when there is no value.
pub open spec fn opt_ent<T: Wire>(key: Seq<char>, v: Option<T>) -> Members {
    match v {
        Some(x) => seq![(key, x.wire())],
        None => Seq::empty(),
    }
}

/// Reading a member that must be there.
pub open spec fn req<T: Wire>(j: JValue, key: Seq<char>) -> Option<Members> {
    match field(j, key) {
        Some(x) => match T::read(x) {
            Some(w) => Some(seq![(key, w)]),
            None => None,
        },
        None => None,
    }
}

/// Reading a member that may be missing or `null`; it is then left out.
pub open spec fn opt<T: Wire>(j: JValue, key: Seq<char>) -> Option<Members> {
    match field(j, key) {
        None => Some(Seq::empty()),
        Some(JValue::Null) => Some(Seq::empty()),
        Some(x) => match T::read(x) {
            Some(w) => Some(seq![(key, w)]),
            None => None,
        },
    }
}

/// Reading a member that takes the form `d` when it is missing.
pub open spec fn dflt<T: Wire>(j: JValue, key: Seq<char>, d: JValue) -> Option<Members> {
    match field(j, key) {
        None => Some(seq![(key, d)]),
        Some(x) => match T::read(x) {
            Some(w) => Some(seq![(key, w)]),
            None => None,
        },
    }
}

/// Reading every element of an array as a `T`.
pub open spec fn read_all<T: Wire>(xs: Seq<JValue>) -> Option<Seq<JValue>>
    decreases xs.len(),
{
    if xs.len() == 0 {
        Some(Seq::empty())
    } else {
        match (read_all::<T>(xs.drop_last()), T::read(xs.last())) {
            (Some(a), Some(b)) => Some(a.push(b)),
            _ => None,
        }
    }
}

/// The canonical forms of a sequence of values.
pub open spec fn wires<T: Wire>(s: Seq<T>) -> Seq<JValue> {
    s.map_values(|x: T| x.wire())
}

pub proof fn lemma_read_all_prefix<T: Wire>(xs: Seq<JValue>, i: int)
    requires
        0 <= i <= xs.len(),
        read_all::<T>(xs.take(i)) is None,
    ensures
        read_all::<T>(xs) is None,
    decreases xs.len() - i,
{
    if i < xs.len() {
        assert(xs.take(i + 1).drop_last() =~= xs.take(i));
        lemma_read_all_prefix::<T>(xs, i + 1);
    } else {
        assert(xs.take(i) =~= xs);
    }
}

/// Canonical forms of a sequence read back as themselves, where those of its
/// elements do.
pub proof fn lemma_read_all_wires<T: Wire>(s: Seq<T>)
    requires
        forall|x: T| #[trigger] T::read(x.wire()) == Some(x.wire()),
    ensures
        read_all::<T>(wires(s)) == Some(wires(s)),
    decreases s.len(),
{
    if s.len() > 0 {
        lemma_read_all_wires::<T>(s.drop_last());
        assert(wires(s).drop_last() =~= wires(s.drop_last()));
        assert(wires(s.drop_last()).push(s.last().wire()) =~= wires(s));
    } else {
        assert(wires(s) =~= Seq::<JValue>::empty());
    }
}

/// The canonical form of a vector reads back as itself, where those of its
/// elements do.
pub proof fn lemma_vec_round_trip<T: Wire>(v: Vec<T>)
    requires
        forall|x: T| #[trigger] T::read(x.wire()) == Some(x.wire()),
    ensures
        <Vec<T> as Wire>::read(v.wire()) == Some(v.wire()),
{
    lemma_read_all_wires::<T>(v@);
}

/// Adds the `type` member of a tagged union's variant.
pub fn put_tag(m: &mut Vec<(String, Json)>, t: &str)
    ensures
        members_view(final(m)@) == members_view(old(m)@) + tag_ent(t@),
{
    proof {
        lemma_members_view(old(m)@);
    }
    m.push(("type".to_owned(), Json::Str(t.to_owned())));
    proof {
        lemma_members_view(final(m)@);
        assert(members_view(final(m)@) =~= members_view(old(m)@) + tag_ent(t@));
    }
}

/// Adds a member that is always written.
pub fn put<T: Wire>(m: &mut Vec<(String, Json)>, key: &str, v: &T)
    ensures
        members_view(final(m)@) == members_view(old(m)@) + ent(key@, *v),
{
    proof {
        lemma_members_view(old(m)@);
    }
    m.push((key.to_owned(), v.to_json()));
    proof {
        lemma_members_view(final(m)@);
        assert(members_view(final(m)@) =~= members_view(old(m)@) + ent(key@, *v));
    }
}

/// Adds a member, left out when there is no value.
pub fn put_opt<T: Wire>(m: &mut Vec<(String, Json)>, key: &str, v: &Option<T>)
    ensures
        members_view(final(m)@) == members_view(old(m)@) + opt_ent(key@, *v),
{
    proof {
        lemma_members_view(old(m)@);
    }
    match v {
        Some(x) => {
            m.push((key.to_owned(), x.to_json()));
            proof {
                lemma_members_view(final(m)@);
                assert(members_view(final(m)@) =~= members_view(old(m)@) + opt_ent(key@, *v));
            }
        },
        None => {
            assert(members_view(final(m)@) =~= members_view(old(m)@) + opt_ent(key@, *v));
        },
    }
}

/// Reads the `type` member of a tagged union.
pub fn get_tag(j: &Json) -> (r: Result<&String, DecodeError>)
    ensures
        match r {
            Ok(t) => tag_of(j@) == Some(t@),
            Err(_) => tag_of(j@) is None,
        },
{
    match j.get("type") {
        Some(Json::Str(t)) => Ok(t),
        _ => Err(DecodeError::Mismatch),
    }
}

/// Reads a member that must be there.
pub fn get_req<T: Wire>(j: &Json, key: &str) -> (r: Result<T, DecodeError>)
    ensures
        match r {
            Ok(v) => req::<T>(j@, key@) == Some(ent(key@, v)),
            Err(_) => req::<T>(j@, key@) is None,
        },
{
    match j.get(key) {
        Some(x) => T::from_json(x),
        None => Err(DecodeError::Mismatch),
    }
}

/// Reads a member that may be missing or `null`.
pub fn get_opt<T: Wire>(j: &Json, key: &str) -> (r: Result<Option<T>, DecodeError>)
    ensures
        match r {
            Ok(v) => opt::<T>(j@, key@) == Some(opt_ent(key@, v)),
            Err(_) => opt::<T>(j@, key@) is None,
        },
        field(j@, key@) is None ==> r == Ok::<Option<T>, DecodeError>(None),
{
    match j.get(key) {
        None => Ok(None),
        Some(Json::Null) => Ok(None),
        Some(x) => match T::from_json(x) {
            Ok(v) => Ok(Some(v)),
            Err(e) => Err(e),
        },
    }
}

/// Reads a member that takes the value `d` when it is missing.
pub fn get_dflt<T: Wire>(j: &Json, key: &str, d: T) -> (r: Result<T, DecodeError>)
    ensures
        match r {
            Ok(v) => dflt::<T>(j@, key@, d.wire()) == Some(ent(key@, v)),
            Err(_) => dflt::<T>(j@, key@, d.wire()) is None,
        },
        field(j@, key@) is None ==> r == Ok::<T, DecodeError>(d),
{
    match j.get(key) {
        None => Ok(d),
        Some(x) => T::from_json(x),
    }
}

impl Wire for String {
    open spec fn wire(&self) -> JValue {
        JValue::Str(self@)
    }

    open spec fn read(j: JValue) -> Option<JValue> {
        match j {
            JValue::Str(s) => Some(JValue::Str(s)),
            _ => None,
        }
    }

    fn to_json(&self) -> (r: Json) {
        Json::Str(self.clone())
    }

    fn from_json(j: &Json) -> (r: Result<Self, DecodeError>) {
        match j {
            Json::Str(s) => Ok(s.clone()),
            _ => Err(DecodeError::Mismatch),
        }
    }
}

impl Wire for bool {
    open spec fn wire(&self) -> JValue {
        JValue::Bool(*self)
    }

    open spec fn read(j: JValue) -> Option<JValue> {
        match j {
            JValue::Bool(b) => Some(JValue::Bool(b)),
            _ => None,
        }
    }

    fn to_json(&self) -> (r: Json) {
        Json::Bool(*self)
    }

    fn from_json(j: &Json) -> (r: Result<Self, DecodeError>) {
        match j {
            Json::Bool(b) => Ok(*b),
            _ => Err(DecodeError::Mismatch),
        }
    }
}

impl Wire for i64 {
    open spec fn wire(&self) -> JValue {
        JValue::Int(*self as int)
    }

    open spec fn read(j: JValue) -> Option<JValue> {
        match j {
            JValue::Int(n) => Some(JValue::Int(n)),
            _ => None,
        }
    }

    fn to_json(&self) -> (r: Json) {
        Json::Number(JsonNumber::Int(*self))
    }

    fn from_json(j: &Json) -> (r: Result<Self, DecodeError>) {
        match j {
            Json::Number(JsonNumber::Int(n)) => Ok(*n),
            _ => Err(DecodeError::Mismatch),
        }
    }
}

impl Wire for i32 {
    open spec fn wire(&self) -> JValue {
        JValue::Int(*self as int)
    }

    open spec fn read(j: JValue) -> Option<JValue> {
        match j {
            JValue::Int(n) => if i32::MIN <= n <= i32::MAX {
                Some(JValue::Int(n))
            } else {
                None
            },
            _ => None,
        }
    }

    fn to_json(&self) -> (r: Json) {
        Json::Number(JsonNumber::Int(*self as i64))
    }

    fn from_json(j: &Json) -> (r: Result<Self, DecodeError>) {
        match j {
            Json::Number(JsonNumber::Int(n)) => if i32::MIN as i64 <= *n && *n <= i32::MAX as i64 {
                Ok(*n as i32)
            } else {
                Err(DecodeError::Mismatch)
            },
            _ => Err(DecodeError::Mismatch),
        }
    }
}

impl Wire for u8 {
    open spec fn wire(&self) -> JValue {
        JValue::Int(*self as int)
    }

    open spec fn read(j: JValue) -> Option<JValue> {
        match j {
            JValue::Int(n) => if 0 <= n <= u8::MAX {
                Some(JValue::Int(n))
            } else {
                None
            },
            _ => None,
        }
    }

    fn to_json(&self) -> (r: Json) {
        Json::Number(JsonNumber::Int(*self as i64))
    }

    fn from_json(j: &Json) -> (r: Result<Self, DecodeError>) {
        match j {
            Json::Number(JsonNumber::Int(n)) => if 0 <= *n && *n <= u8::MAX as i64 {
                Ok(*n as u8)
            } else {
                Err(DecodeError::Mismatch)
            },
            _ => Err(DecodeError::Mismatch),
        }
    }
}

impl Wire for JsonNumber {
    open spec fn wire(&self) -> JValue {
        match self {
            JsonNumber::Int(n) => JValue::Int(*n as int),
            JsonNumber::Decimal(s) => JValue::Decimal(s@),
        }
    }

    open spec fn read(j: JValue) -> Option<JValue> {
        match j {
            JValue::Int(n) => Some(JValue::Int(n)),
            JValue::Decimal(s) => Some(JValue::Decimal(s)),
            _ => None,
        }
    }

    fn to_json(&self) -> (r: Json) {
        match self {
            JsonNumber::Int(n) => Json::Number(JsonNumber::Int(*n)),
            JsonNumber::Decimal(s) => Json::Number(JsonNumber::Decimal(s.clone())),
        }
    }

    fn from_json(j: &Json) -> (r: Result<Self, DecodeError>) {
        match j {
            Json::Number(JsonNumber::Int(n)) => Ok(JsonNumber::Int(*n)),
            Json::Number(JsonNumber::Decimal(s)) => Ok(JsonNumber::Decimal(s.clone())),
            _ => Err(DecodeError::Mismatch),
        }
    }
}

impl Wire for Json {
    open spec fn wire(&self) -> JValue {
        self@
    }

    open spec fn read(j: JValue) -> Option<JValue> {
        Some(j)
    }

    fn to_json(&self) -> (r: Json) {
        self.copy()
    }

    fn from_json(j: &Json) -> (r: Result<Self, DecodeError>) {
        Ok(j.copy())
    }
}

impl<T: Wire> Wire for Vec<T> {
    open spec fn wire(&self) -> JValue {
        JValue::Arr(wires(self@))
    }

    open spec fn read(j: JValue) -> Option<JValue> {
        match j {
            JValue::Arr(xs) => match read_all::<T>(xs) {
                Some(ys) => Some(JValue::Arr(ys)),
                None => None,
            },
            _ => None,
        }
    }

    fn to_json(&self) -> (r: Json) {
        let mut out: Vec<Json> = Vec::new();
        let mut i: usize = 0;
        while i < self.len()
            invariant
                0 <= i <= self.len(),
                out@.len() == i,
                forall|k: int| 0 <= k < i ==> #[trigger] out@[k]@ == self@[k].wire(),
            decreases self.len() - i,
        {
            out.push(self[i].to_json());
            i = i + 1;
        }
        proof {
            lemma_elems_view(out@);
            assert(elems_view(out@) =~= wires(self@));
        }
        Json::Array(out)
    }

    fn from_json(j: &Json) -> (r: Result<Self, DecodeError>) {
        match j {
            Json::Array(xs) => {
                let ghost e = elems_view(xs@);
                proof {
                    lemma_elems_view(xs@);
                    assert(e.take(0) =~= Seq::<JValue>::empty());
                }
                let mut out: Vec<T> = Vec::new();
                let mut i: usize = 0;
                while i < xs.len()
                    invariant
                        0 <= i <= xs.len(),
                        e == elems_view(xs@),
                        j@ == JValue::Arr(e),
                        e.len() == xs@.len(),
                        forall|k: int| 0 <= k < xs@.len() ==> #[trigger] e[k] == xs@[k]@,
                        read_all::<T>(e.take(i as int)) == Some(wires(out@)),
                    decreases xs.len() - i,
                {
                    assert(e.take(i + 1).drop_last() =~= e.take(i as int));
                    assert(e.take(i + 1).last() == xs@[i as int]@);
                    match T::from_json(&xs[i]) {
                        Ok(v) => {
                            let ghost before = out@;
                            out.push(v);
                            assert(wires(out@) =~= wires(before).push(v.wire()));
                        },
                        Err(err) => {
                            proof {
                                lemma_read_all_prefix::<T>(e, i + 1);
                            }
                            return Err(err);
                        },
                    }
                    i = i + 1;
                }
                assert(e.take(i as int) =~= e);
                Ok(out)
            },
            _ => Err(DecodeError::Mismatch),
        }
    }
}

/// The model of a string-to-string map, member by member.
pub open spec fn pairs_view(s: Seq<(String, String)>) -> Members {
    s.map_values(|p: (String, String)| (p.0@, JValue::Str(p.1@)))
}

/// Tells whether every member of an object holds a string.
pub open spec fn all_strings(m: Members) -> bool {
    forall|i: int| 0 <= i < m.len() ==> #[trigger] m[i].1 is Str
}

/// Tells whether no two members of an object share a name.
pub open spec fn distinct_names(m: Members) -> bool {
    forall|i: int, k: int| 0 <= i < k < m.len() ==> #[trigger] m[i].0 != #[trigger] m[k].0
}

/// A map from strings to strings, written as an object whose members hold strings,
/// in the order of its entries. An object reads as a map only where its names are
/// distinct, so a map that was read has distinct keys.
impl Wire for Vec<(String, String)> {
    open spec fn wire(&self) -> JValue {
        JValue::Obj(pairs_view(self@))
    }

    open spec fn read(j: JValue) -> Option<JValue> {
        match j {
            JValue::Obj(m) => if all_strings(m) && distinct_names(m) {
                Some(JValue::Obj(m))
            } else {
                None
            },
            _ => None,
        }
    }

    fn to_json(&self) -> (r: Json) {
        let mut out: Vec<(String, Json)> = Vec::new();
        let mut i: usize = 0;
        while i < self.len()
            invariant
                0 <= i <= self.len(),
                out@.len() == i,
                forall|k: int|
                    0 <= k < i ==> #[trigger] out@[k].0@ == self@[k].0@ && out@[k].1@ == JValue::Str(
                        self@[k].1@,
                    ),
            decreases self.len() - i,
        {
            out.push((self[i].0.clone(), Json::Str(self[i].1.clone())));
            i = i + 1;
        }
        proof {
            lemma_members_view(out@);
            assert(members_view(out@) =~= pairs_view(self@));
        }
        Json::Object(out)
    }

    fn from_json(j: &Json) -> (r: Result<Self, DecodeError>) {
        match j {
            Json::Object(v) => {
                let ghost m = members_view(v@);
                proof {
                    lemma_members_view(v@);
                }
                let mut out: Vec<(String, String)> = Vec::new();
                let mut i: usize = 0;
                while i < v.len()
                    invariant
                        0 <= i <= v.len(),
                        m == members_view(v@),
                        j@ == JValue::Obj(m),
                        m.len() == v@.len(),
                        forall|k: int| 0 <= k < v@.len() ==> #[trigger] m[k] == (v@[k].0@, v@[k].1@),
                        out@.len() == i,
                        forall|k: int|
                            0 <= k < i ==> #[trigger] out@[k].0@ == m[k].0 && JValue::Str(out@[k].1@)
                                == m[k].1,
                        forall|a: int, b: int| 0 <= a < b < i ==> #[trigger] m[a].0 != #[trigger] m[b].0,
                    decreases v.len() - i,
                {
                    let mut k: usize = 0;
                    while k < i
                        invariant
                            0 <= k <= i < v.len(),
                            j@ == JValue::Obj(m),
                            m.len() == v@.len(),
                            forall|q: int| 0 <= q < v@.len() ==> #[trigger] m[q] == (v@[q].0@, v@[q].1@),
                            forall|q: int| 0 <= q < k ==> m[q].0 != m[i as int].0,
                        decreases i - k,
                    {
                        if same_text(v[k].0.as_str(), v[i].0.as_str()) {
                            assert(!distinct_names(m)) by {
                                assert(m[k as int].0 == m[i as int].0);
                            }
                            return Err(DecodeError::Mismatch);
                        }
                        k = k + 1;
                    }
                    match &v[i].1 {
                        Json::Str(s) => {
                            out.push((v[i].0.clone(), s.clone()));
                        },
                        _ => {
                            assert(!(m[i as int].1 is Str));
                            return Err(DecodeError::Mismatch);
                        },
                    }
                    i = i + 1;
                }
                assert(pairs_view(out@) =~= m);
                assert(all_strings(m));
                assert(distinct_names(m));
                Ok(out)
            },
            _ => Err(DecodeError::Mismatch),
        }
    }
}

} // verus!
