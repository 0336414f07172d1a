//! JSON documents as plain values.

use vstd::prelude::*;

use crate::text::{opt_text, str_eq};

verus! {

/// A JSON document. Members of an object keep their order.
#[derive(Debug)]
pub enum Json {
    Null,
    Bool(bool),
    /// A whole number that fits 64 bits with a sign.
    Int(i64),
    /// A whole number above the largest `Int`.
    UInt(u64),
    /// Any other number, as its JSON text.
    Decimal(String),
    Str(String),
    Array(Vec<Json>),
    Object(Vec<(String, Json)>),
}

/// The model of a [`Json`] document.
pub enum JsonView {
    Null,
    Bool(bool),
    Int(int),
    Decimal(Seq<char>),
    Str(Seq<char>),
    Array(Seq<JsonView>),
    Object(Seq<(Seq<char>, JsonView)>),
}

impl Json {
    /// The document as a mathematical value.
    pub open spec fn doc(&self) -> JsonView
        decreases self,
    {
        match self {
            Json::Null => JsonView::Null,
            Json::Bool(b) => JsonView::Bool(*b),
            Json::Int(n) => JsonView::Int(*n as int),
            Json::UInt(n) => JsonView::Int(*n as int),
            Json::Decimal(t) => JsonView::Decimal(t@),
            Json::Str(t) => JsonView::Str(t@),
            Json::Array(v) => JsonView::Array(
                Seq::new(
                    v@.len(),
                    |i: int|
                        if 0 <= i < v@.len() {
                            v@[i].doc()
                        } else {
                            JsonView::Null
                        },
                ),
            ),
            Json::Object(m) => JsonView::Object(
                Seq::new(
                    m@.len(),
                    |i: int|
                        if 0 <= i < m@.len() {
                            (m@[i].0@, m@[i].1.doc())
                        } else {
                            (Seq::empty(), JsonView::Null)
                        },
                ),
            ),
        }
    }
}

impl View for Json {
    type V = JsonView;

    open spec fn view(&self) -> JsonView {
        self.doc()
    }
}

/// The position of the first member with the given name, from `from` on.
pub open spec fn member_index(m: Seq<(Seq<char>, JsonView)>, key: Seq<char>, from: int) -> Option<
    int,
>
    decreases m.len() - from,
{
    if from < 0 || from >= m.len() {
        None
    } else if m[from].0 == key {
        Some(from)
    } else {
        member_index(m, key, from + 1)
    }
}

/// The first member of a name is the one that is found.
pub proof fn lemma_member_found(m: Seq<(Seq<char>, JsonView)>, key: Seq<char>, from: int, at: int)
    requires
        0 <= from <= at < m.len(),
        m[at].0 == key,
        forall|j: int| from <= j < at ==> (#[trigger] m[j]).0 != key,
    ensures
        member_index(m, key, from) == Some(at),
        from == 0 ==> JsonView::Object(m).member(key) == Some(m[at].1),
    decreases at - from,
{
    if from < at {
        lemma_member_found(m, key, from + 1, at);
    }
}

proof fn lemma_index_after_put(
    m: Seq<(Seq<char>, JsonView)>,
    x: (Seq<char>, JsonView),
    asked: Seq<char>,
    from: int,
)
    requires
        0 <= from <= m.len(),
    ensures
        member_index(m, asked, from) matches Some(i) ==> from <= i < m.len() && member_index(
            m.push(x),
            asked,
            from,
        ) == Some(i),
        member_index(m, asked, from) is None ==> member_index(m.push(x), asked, from) == (if x.0
            == asked {
            Some(m.len() as int)
        } else {
            None
        }),
    decreases m.len() - from,
{
    let all = m.push(x);
    if from < m.len() {
        assert(all[from] == m[from]);
        if m[from].0 != asked {
            lemma_index_after_put(m, x, asked, from + 1);
        }
    } else {
        assert(all[from] == x);
        if x.0 != asked {
            assert(member_index(all, asked, from + 1) is None);
        }
    }
}

/// A member that is put last is found where none before it has its name, and every earlier
/// member is found as before.
pub proof fn lemma_member_put(
    m: Seq<(Seq<char>, JsonView)>,
    key: Seq<char>,
    v: JsonView,
    asked: Seq<char>,
)
    ensures
        JsonView::Object(m.push((key, v))).member(asked) == (match JsonView::Object(m).member(
            asked,
        ) {
            Some(x) => Some(x),
            None => if key == asked {
                Some(v)
            } else {
                None
            },
        }),
{
    lemma_index_after_put(m, (key, v), asked, 0);
}

impl JsonView {
    /// The member of an object with the given name.
    pub open spec fn member(self, key: Seq<char>) -> Option<JsonView> {
        match self {
            JsonView::Object(m) => match member_index(m, key, 0) {
                Some(i) => Some(m[i].1),
                None => None,
            },
            _ => None,
        }
    }

    /// The text, when the document is a string.
    pub open spec fn text(self) -> Option<Seq<char>> {
        match self {
            JsonView::Str(t) => Some(t),
            _ => None,
        }
    }

    /// The number, when the document is a whole number of 64 bits.
    pub open spec fn integer(self) -> Option<int> {
        match self {
            JsonView::Int(n) => if i64::MIN <= n <= i64::MAX {
                Some(n)
            } else {
                None
            },
            _ => None,
        }
    }

    /// The text of the member with the given name, when it is a string.
    pub open spec fn text_member(self, key: Seq<char>) -> Option<Seq<char>> {
        match self.member(key) {
            Some(v) => v.text(),
            None => None,
        }
    }
}

impl Json {
    /// The member of an object with the given name.
    pub fn get(&self, key: &str) -> (r: Option<&Json>)
        ensures
            match r {
                Some(v) => self@.member(key@) == Some(v@),
                None => self@.member(key@) is None,
            },
    {
        match self {
            Json::Object(m) => {
                let ghost members = self@->Object_0;
                assert(members.len() == m@.len());
                let mut i: usize = 0;
                while i < m.len()
                    invariant
                        i <= m@.len(),
                        members.len() == m@.len(),
                        self@ == JsonView::Object(members),
                        forall|j: int|
                            0 <= j < m@.len() ==> #[trigger] members[j] == (m@[j].0@, m@[j].1@),
                        member_index(members, key@, 0) == member_index(members, key@, i as int),
                    decreases m@.len() - i,
                {
                    assert(members[i as int] == (m@[i as int].0@, m@[i as int].1@));
                    if str_eq(m[i].0.as_str(), key) {
                        return Some(&m[i].1);
                    }
                    i += 1;
                }
                None
            },
            _ => None,
        }
    }

    /// The text, when the document is a string.
    pub fn as_str(&self) -> (r: Option<&str>)
        ensures
            match r {
                Some(t) => self@.text() == Some(t@),
                None => self@.text() is None,
            },
    {
        match self {
            Json::Str(t) => Some(t.as_str()),
            _ => None,
        }
    }

    /// The number, when the document is a whole number of 64 bits.
    pub fn as_i64(&self) -> (r: Option<i64>)
        ensures
            match r {
                Some(n) => self@.integer() == Some(n as int),
                None => self@.integer() is None,
            },
    {
        match self {
            Json::Int(n) => Some(*n),
            Json::UInt(n) => if *n <= 0x7fff_ffff_ffff_ffff {
                Some(*n as i64)
            } else {
                None
            },
            _ => None,
        }
    }

    /// The elements, when the document is an array.
    pub fn as_array(&self) -> (r: Option<&Vec<Json>>)
        ensures
            match r {
                Some(v) => self@ is Array && self@->Array_0.len() == v@.len() && forall|i: int|
                    0 <= i < v@.len() ==> #[trigger] self@->Array_0[i] == v@[i]@,
                None => !(self@ is Array),
            },
    {
        match self {
            Json::Array(v) => Some(v),
            _ => None,
        }
    }

    /// The text of the member with the given name, when it is a string.
    pub fn get_str(&self, key: &str) -> (r: Option<&str>)
        ensures
            match r {
                Some(t) => self@.text_member(key@) == Some(t@),
                None => self@.text_member(key@) is None,
            },
    {
        match self.get(key) {
            Some(v) => v.as_str(),
            None => None,
        }
    }

    /// A document with the same content.
    pub fn copy(&self) -> (r: Json)
        ensures
            r@ == self@,
        decreases self,
    {
        match self {
            Json::Null => Json::Null,
            Json::Bool(b) => Json::Bool(*b),
            Json::Int(n) => Json::Int(*n),
            Json::UInt(n) => Json::UInt(*n),
            Json::Decimal(t) => Json::Decimal(t.clone()),
            Json::Str(t) => Json::Str(t.clone()),
            Json::Array(v) => {
                let mut out: Vec<Json> = Vec::new();
                let mut i: usize = 0;
                while i < v.len()
                    invariant
                        i <= v@.len(),
                        out@.len() == i,
                        *self == Json::Array(*v),
                        forall|j: int| 0 <= j < i ==> (#[trigger] out@[j])@ == v@[j]@,
                    decreases v@.len() - i,
                {
                    proof {
                        assert(decreases_to!(self => self->Array_0));
                        assert(decreases_to!(v => v@));
                        assert(decreases_to!(v@ => v@[i as int]));
                    }
                    out.push(v[i].copy());
                    i += 1;
                }
                let r = Json::Array(out);
                assert(r@->Array_0 =~= self@->Array_0);
                r
            },
            Json::Object(m) => {
                let mut out: Vec<(String, Json)> = Vec::new();
                let mut i: usize = 0;
                while i < m.len()
                    invariant
                        i <= m@.len(),
                        out@.len() == i,
                        *self == Json::Object(*m),
                        forall|j: int|
                            0 <= j < i ==> (#[trigger] out@[j]).0@ == m@[j].0@ && out@[j].1@
                                == m@[j].1@,
                    decreases m@.len() - i,
                {
                    proof {
                        assert(decreases_to!(self => self->Object_0));
                        assert(decreases_to!(m => m@));
                        assert(decreases_to!(m@ => m@[i as int]));
                        assert(decreases_to!(m@[i as int] => m@[i as int].1));
                    }
                    out.push((m[i].0.clone(), m[i].1.copy()));
                    i += 1;
                }
                let r = Json::Object(out);
                assert(r@->Object_0 =~= self@->Object_0);
                r
            },
        }
    }

    /// Whether the document is an object without members.
    pub fn is_empty_object(&self) -> (r: bool)
        ensures
            r == (self@ matches JsonView::Object(m) && m.len() == 0),
    {
        match self {
            Json::Object(m) => m.len() == 0,
            _ => false,
        }
    }
}

// ---------------------------------------------------------------------------
// Building documents
// ---------------------------------------------------------------------------

/// An object that is being put together, member by member.
#[derive(Debug)]
pub struct ObjectBuilder {
    members: Vec<(String, Json)>,
}

impl View for ObjectBuilder {
    type V = Seq<(Seq<char>, JsonView)>;

    closed spec fn view(&self) -> Seq<(Seq<char>, JsonView)> {
        self.members@.map_values(|m: (String, Json)| (m.0@, m.1@))
    }
}

impl ObjectBuilder {
    /// An object without members.
    pub fn new() -> (r: ObjectBuilder)
        ensures
            r@ == Seq::<(Seq<char>, JsonView)>::empty(),
    {
        let r = ObjectBuilder { members: Vec::new() };
        assert(r@ =~= Seq::<(Seq<char>, JsonView)>::empty());
        r
    }

    /// The object with one more member.
    pub fn put(self, name: &str, value: Json) -> (r: ObjectBuilder)
        ensures
            r@ == self@.push((name@, value@)),
    {
        let mut members = self.members;
        members.push((String::from_str(name), value));
        let r = ObjectBuilder { members };
        assert(r@ =~= self@.push((name@, value@)));
        r
    }

    /// The object with one more member, a string.
    pub fn put_str(self, name: &str, value: &str) -> (r: ObjectBuilder)
        ensures
            r@ == self@.push((name@, JsonView::Str(value@))),
    {
        self.put(name, Json::Str(String::from_str(value)))
    }

    /// The object with one more member: a string, or null when there is none.
    pub fn put_opt_str(self, name: &str, value: &Option<String>) -> (r: ObjectBuilder)
        ensures
            r@ == self@.push((name@, opt_str_view(opt_text(*value)))),
    {
        match value {
            Some(s) => self.put_str(name, s.as_str()),
            None => self.put(name, Json::Null),
        }
    }

    /// The object with one more member: a number, or null when there is none.
    pub fn put_opt_int(self, name: &str, value: Option<i64>) -> (r: ObjectBuilder)
        ensures
            r@ == self@.push(
                (
                    name@,
                    match value {
                        Some(n) => JsonView::Int(n as int),
                        None => JsonView::Null,
                    },
                ),
            ),
    {
        match value {
            Some(n) => self.put(name, Json::Int(n)),
            None => self.put(name, Json::Null),
        }
    }

    /// The object with one more member, where there is a value for it.
    pub fn put_some(self, name: &str, value: Option<Json>) -> (r: ObjectBuilder)
        ensures
            r@ == with_some(
                self@,
                name@,
                match value {
                    Some(v) => Some(v@),
                    None => None,
                },
            ),
    {
        match value {
            Some(v) => self.put(name, v),
            None => self,
        }
    }

    /// The object with one more member, a string, where there is one.
    pub fn put_some_str(self, name: &str, value: &Option<String>) -> (r: ObjectBuilder)
        ensures
            r@ == with_some(self@, name@, some_str_view(opt_text(*value))),
    {
        match value {
            Some(t) => self.put_str(name, t.as_str()),
            None => self,
        }
    }

    /// The object.
    pub fn build(self) -> (r: Json)
        ensures
            r@ == JsonView::Object(self@),
    {
        let r = Json::Object(self.members);
        assert(r@->Object_0 =~= self@);
        r
    }
}

/// A string, or null when there is none.
pub open spec fn opt_str_view(o: Option<Seq<char>>) -> JsonView {
    match o {
        Some(s) => JsonView::Str(s),
        None => JsonView::Null,
    }
}

/// A string, where there is one.
pub open spec fn some_str_view(o: Option<Seq<char>>) -> Option<JsonView> {
    match o {
        Some(s) => Some(JsonView::Str(s)),
        None => None,
    }
}

/// The members with one more, where there is a value for it.
pub open spec fn with_some(
    members: Seq<(Seq<char>, JsonView)>,
    name: Seq<char>,
    value: Option<JsonView>,
) -> Seq<(Seq<char>, JsonView)> {
    match value {
        Some(v) => members.push((name, v)),
        None => members,
    }
}

/// An array that is being put together, element by element.
#[derive(Debug)]
pub struct ArrayBuilder {
    elements: Vec<Json>,
}

impl View for ArrayBuilder {
    type V = Seq<JsonView>;

    closed spec fn view(&self) -> Seq<JsonView> {
        self.elements@.map_values(|e: Json| e@)
    }
}

impl ArrayBuilder {
    /// An array without elements.
    pub fn new() -> (r: ArrayBuilder)
        ensures
            r@ == Seq::<JsonView>::empty(),
    {
        let r = ArrayBuilder { elements: Vec::new() };
        assert(r@ =~= Seq::<JsonView>::empty());
        r
    }

    /// The array with one more element.
    pub fn put(self, value: Json) -> (r: ArrayBuilder)
        ensures
            r@ == self@.push(value@),
    {
        let mut elements = self.elements;
        elements.push(value);
        let r = ArrayBuilder { elements };
        assert(r@ =~= self@.push(value@));
        r
    }

    /// The array with one more element, a string.
    pub fn put_str(self, value: &str) -> (r: ArrayBuilder)
        ensures
            r@ == self@.push(JsonView::Str(value@)),
    {
        self.put(Json::Str(String::from_str(value)))
    }

    /// The array.
    pub fn build(self) -> (r: Json)
        ensures
            r@ == JsonView::Array(self@),
    {
        let r = Json::Array(self.elements);
        assert(r@->Array_0 =~= self@);
        r
    }
}

// ---------------------------------------------------------------------------
// Text
// ---------------------------------------------------------------------------

/// `serde_json::Value`: a document of that crate.
#[verifier::external_type_specification]
#[verifier::external_body]
pub struct ExValue(serde_json::Value);

/// The document of `serde_json` for a document of this library.
pub uninterp spec fn value_of(doc: JsonView) -> serde_json::Value;

/// `serde_json::Value`: the same document, each part by the part of that name. A decimal
/// numeral becomes the double that is closest to it. The result is a function of the
/// document.
#[verifier::external_body]
fn to_value(doc: &Json) -> (r: serde_json::Value)
    ensures
        r == value_of(doc@),
{
    match doc {
        Json::Null => serde_json::Value::Null,
        Json::Bool(b) => (*b).into(),
        Json::Int(n) => (*n).into(),
        Json::UInt(n) => (*n).into(),
        Json::Decimal(t) => serde_json::Number::from_f64(t.parse().unwrap_or_default()).into(),
        Json::Str(t) => t.clone().into(),
        Json::Array(v) => v.iter().map(to_value).collect(),
        Json::Object(m) => m.iter().map(|(k, v)| (k.clone(), to_value(v))).collect(),
    }
}

/// The compact text that `serde_json` writes for a document.
pub uninterp spec fn json_text(doc: JsonView) -> Seq<char>;

/// `serde_json::Value::to_string`: the compact text of the document, a function of the
/// document.
#[verifier::external_body]
fn write_text(value: &serde_json::Value) -> (r: String)
    ensures
        forall|doc: JsonView| *value == #[trigger] value_of(doc) ==> r@ == json_text(doc),
{
    value.to_string()
}

/// The canonical bytes that `serde_jcs` writes for a document, or its message.
pub uninterp spec fn canonical_bytes(doc: JsonView) -> Result<Seq<u8>, Seq<char>>;

/// `serde_jcs::to_vec`: the bytes of the document in the canonical form of RFC 8785, or
/// the text of the error, a function of the document.
#[verifier::external_body]
fn write_canonical(value: &serde_json::Value) -> (r: Result<Vec<u8>, String>)
    ensures
        forall|doc: JsonView| *value == #[trigger] value_of(doc) ==> match r {
            Ok(b) => canonical_bytes(doc) is Ok && canonical_bytes(doc)->Ok_0 == b@,
            Err(m) => canonical_bytes(doc) is Err && canonical_bytes(doc)->Err_0 == m@,
        },
{
    serde_jcs::to_vec(value).map_err(|e| e.to_string())
}

impl Json {
    /// The compact text of the document.
    pub fn to_text(&self) -> (r: String)
        ensures
            r@ == json_text(self@),
    {
        let value = to_value(self);
        write_text(&value)
    }

    /// The bytes of the document in canonical form.
    pub fn to_canonical(&self) -> (r: Result<Vec<u8>, String>)
        ensures
            match r {
                Ok(b) => canonical_bytes(self@) == Ok::<Seq<u8>, Seq<char>>(b@),
                Err(m) => canonical_bytes(self@) == Err::<Seq<u8>, Seq<char>>(m@),
            },
    {
        let value = to_value(self);
        write_canonical(&value)
    }
}

/// An object without members has none to find.
pub proof fn lemma_member_of_none(asked: Seq<char>)
    ensures
        JsonView::Object(Seq::empty()).member(asked) is None,
{
}

/// The same of a member that is put only where there is a value for it.
pub proof fn lemma_member_put_some(
    m: Seq<(Seq<char>, JsonView)>,
    key: Seq<char>,
    v: Option<JsonView>,
    asked: Seq<char>,
)
    ensures
        JsonView::Object(with_some(m, key, v)).member(asked) == (match JsonView::Object(m).member(
            asked,
        ) {
            Some(x) => Some(x),
            None => if key == asked {
                v
            } else {
                None
            },
        }),
{
    if v is Some {
        lemma_member_put(m, key, v->0, asked);
    }
}

} // verus!
