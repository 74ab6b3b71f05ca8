//! JSON documents as plain values, and what they mean.
use vstd::prelude::*;

verus! {

/// A JSON number: an integer that fits 64 bits, or the bit pattern of a
/// double-precision number.
#[derive(Debug, Clone, Copy, PartialEq, Eq, Structural)]
pub enum Number {
    Unsigned(u64),
    Signed(i64),
    FloatBits(u64),
}

/// One member of a JSON object.
#[derive(Debug, PartialEq, Eq)]
pub struct Field {
    pub name: String,
    pub value: Json,
}

/// A JSON document.
///
/// An object lists its members in any order. Where a name occurs twice, the
/// later member counts.
#[derive(Debug, PartialEq, Eq)]
pub enum Json {
    Null,
    Bool(bool),
    Number(Number),
    Str(String),
    Array(Vec<Json>),
    Object(Vec<Field>),
}

/// What a JSON document says.
pub enum JsonView {
    Null,
    Bool(bool),
    Number(Number),
    Str(Seq<char>),
    Array(Seq<JsonView>),
    Object(Map<Seq<char>, JsonView>),
}

impl Json {
    pub open spec fn view(&self) -> JsonView
        decreases self,
    {
        match self {
            Json::Null => JsonView::Null,
            Json::Bool(b) => JsonView::Bool(*b),
            Json::Number(n) => JsonView::Number(*n),
            Json::Str(s) => JsonView::Str(s@),
            Json::Array(items) => JsonView::Array(views(items@)),
            Json::Object(fields) => JsonView::Object(members(fields@)),
        }
    }
}

/// The documents of an array, in order.
pub open spec fn views(items: Seq<Json>) -> Seq<JsonView>
    decreases items,
{
    Seq::new(
        items.len(),
        |i: int|
            if 0 <= i < items.len() {
                items[i].view()
            } else {
                JsonView::Null
            },
    )
}

/// The members of an object, by name.
pub open spec fn members(fields: Seq<Field>) -> Map<Seq<char>, JsonView>
    decreases fields,
{
    if fields.len() == 0 {
        Map::empty()
    } else {
        members(fields.drop_last()).insert(fields.last().name@, fields.last().value.view())
    }
}

/// Whether a member can be set on a document: an object takes it, and `null`
/// becomes an object. Every other document has no members.
pub open spec fn takes_members(doc: JsonView) -> bool {
    doc is Null || doc is Object
}

/// The members of a document, none where it is not an object.
pub open spec fn members_of(doc: JsonView) -> Map<Seq<char>, JsonView> {
    match doc {
        JsonView::Object(m) => m,
        _ => Map::empty(),
    }
}

/// The document with one member set.
pub open spec fn with_member(doc: JsonView, name: Seq<char>, value: JsonView) -> JsonView {
    JsonView::Object(members_of(doc).insert(name, value))
}

/// The last position that carries a name is the one that counts.
proof fn lemma_last_member(fields: Seq<Field>, name: Seq<char>, at: int)
    requires
        0 <= at < fields.len(),
        fields[at].name@ == name,
        forall|j: int| at < j < fields.len() ==> (#[trigger] fields[j]).name@ != name,
    ensures
        members(fields).contains_key(name),
        members(fields)[name] == fields[at].value.view(),
    decreases fields.len(),
{
    if at < fields.len() - 1 {
        assert(fields[fields.len() - 1].name@ != name);
        lemma_last_member(fields.drop_last(), name, at);
    }
}

proof fn lemma_no_member(fields: Seq<Field>, name: Seq<char>)
    requires
        forall|j: int| 0 <= j < fields.len() ==> (#[trigger] fields[j]).name@ != name,
    ensures
        !members(fields).contains_key(name),
    decreases fields.len(),
{
    if fields.len() > 0 {
        assert(fields[fields.len() - 1].name@ != name);
        lemma_no_member(fields.drop_last(), name);
    }
}

proof fn lemma_push_member(fields: Seq<Field>, field: Field)
    ensures
        members(fields.push(field)) == members(fields).insert(field.name@, field.value.view()),
{
    assert(fields.push(field).drop_last() =~= fields);
}

/// Replacing the member that counts sets that name and no other.
proof fn lemma_replace_member(fields: Seq<Field>, at: int, field: Field)
    requires
        0 <= at < fields.len(),
        fields[at].name@ == field.name@,
        forall|j: int| at < j < fields.len() ==> (#[trigger] fields[j]).name@ != field.name@,
    ensures
        members(fields.update(at, field)) == members(fields).insert(
            field.name@,
            field.value.view(),
        ),
    decreases fields.len(),
{
    let changed = fields.update(at, field);
    if at == fields.len() - 1 {
        assert(changed.drop_last() =~= fields.drop_last());
        assert(members(changed) =~= members(fields).insert(field.name@, field.value.view()));
    } else {
        assert(fields[fields.len() - 1].name@ != field.name@);
        assert(changed.drop_last() =~= fields.drop_last().update(at, field));
        lemma_replace_member(fields.drop_last(), at, field);
        assert(members(changed) =~= members(fields).insert(field.name@, field.value.view()));
    }
}

/// The position of the last field of that name.
fn last_position(fields: &Vec<Field>, name: &String) -> (r: Option<usize>)
    ensures
        match r {
            Some(at) => at < fields@.len() && fields@[at as int].name@ == name@ && forall|j: int|
                at < j < fields@.len() ==> (#[trigger] fields@[j]).name@ != name@,
            None => forall|j: int|
                0 <= j < fields@.len() ==> (#[trigger] fields@[j]).name@ != name@,
        },
{
    let mut i: usize = fields.len();
    while i > 0
        invariant
            i <= fields@.len(),
            forall|j: int| i <= j < fields@.len() ==> (#[trigger] fields@[j]).name@ != name@,
        decreases i,
    {
        i = i - 1;
        if fields[i].name == *name {
            return Some(i);
        }
    }
    None
}

impl Json {
    /// An object without members.
    pub fn empty_object() -> (r: Json)
        ensures
            r@ == JsonView::Object(Map::empty()),
    {
        Json::Object(Vec::new())
    }

    /// A string document.
    pub fn text(s: &str) -> (r: Json)
        ensures
            r@ == JsonView::Str(s@),
    {
        Json::Str(s.to_string())
    }

    /// The member of that name, if the document is an object that has one.
    pub fn get(&self, name: &str) -> (r: Option<&Json>)
        ensures
            match r {
                Some(value) => members_of(self@).contains_key(name@) && value@ == members_of(
                    self@,
                )[name@],
                None => !members_of(self@).contains_key(name@),
            },
    {
        match self {
            Json::Object(fields) => {
                let wanted = name.to_string();
                match last_position(fields, &wanted) {
                    Some(at) => {
                        proof {
                            lemma_last_member(fields@, name@, at as int);
                        }
                        Some(&fields[at].value)
                    },
                    None => {
                        proof {
                            lemma_no_member(fields@, name@);
                        }
                        None
                    },
                }
            },
            _ => None,
        }
    }

    /// The elements, if the document is an array.
    pub fn as_array(&self) -> (r: Option<&Vec<Json>>)
        ensures
            match r {
                Some(items) => self@ == JsonView::Array(views(items@)),
                None => !(self@ is Array),
            },
    {
        match self {
            Json::Array(items) => Some(items),
            _ => None,
        }
    }

    /// Whether `set` may be called on the document.
    pub fn takes_members(&self) -> (r: bool)
        ensures
            r == takes_members(self@),
    {
        match self {
            Json::Null | Json::Object(_) => true,
            _ => false,
        }
    }

    /// Sets one member. A `null` document becomes an object first.
    pub fn set(&mut self, name: &str, value: Json)
        requires
            takes_members(old(self)@),
        ensures
            final(self)@ == with_member(old(self)@, name@, value@),
    {
        let mut doc = Json::Null;
        std::mem::swap(self, &mut doc);
        let mut fields: Vec<Field> = match doc {
            Json::Object(fields) => fields,
            _ => Vec::new(),
        };
        let field = Field { name: name.to_string(), value };
        match last_position(&fields, &field.name) {
            Some(at) => {
                proof {
                    lemma_replace_member(fields@, at as int, field);
                }
                fields[at] = field;
            },
            None => {
                proof {
                    lemma_push_member(fields@, field);
                }
                fields.push(field);
            },
        }
        *self = Json::Object(fields);
    }
}

impl Clone for Field {
    fn clone(&self) -> (r: Self)
        ensures
            r.name@ == self.name@,
            r.value@ == self.value@,
        decreases self,
    {
        Field { name: self.name.clone(), value: self.value.clone() }
    }
}

impl Clone for Json {
    fn clone(&self) -> (r: Self)
        ensures
            r@ == self@,
        decreases self,
    {
        match self {
            Json::Null => Json::Null,
            Json::Bool(b) => Json::Bool(*b),
            Json::Number(n) => Json::Number(*n),
            Json::Str(s) => Json::Str(s.clone()),
            Json::Array(items) => {
                let mut copy: Vec<Json> = Vec::new();
                for i in 0..items.len()
                    invariant
                        decreases_to!(self => items@),
                        copy@.len() == i,
                        forall|j: int| 0 <= j < i ==> (#[trigger] copy@[j])@ == items@[j]@,
                {
                    assert(decreases_to!(items@ => items@[i as int]));
                    copy.push(items[i].clone());
                }
                assert(views(copy@) =~= views(items@));
                Json::Array(copy)
            },
            Json::Object(fields) => {
                let mut copy: Vec<Field> = Vec::new();
                for i in 0..fields.len()
                    invariant
                        decreases_to!(self => fields@),
                        copy@.len() == i,
                        members(copy@) == members(fields@.take(i as int)),
                {
                    assert(decreases_to!(fields@ => fields@[i as int]));
                    let field = fields[i].clone();
                    proof {
                        lemma_push_member(copy@, field);
                        lemma_push_member(fields@.take(i as int), fields@[i as int]);
                        assert(fields@.take(i as int).push(fields@[i as int]) =~= fields@.take(
                            i + 1,
                        ));
                    }
                    copy.push(field);
                }
                assert(fields@.take(fields@.len() as int) =~= fields@);
                Json::Object(copy)
            },
        }
    }
}

} // verus!
