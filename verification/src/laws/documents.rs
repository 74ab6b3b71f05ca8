//! JSON documents, refusals and routing metadata.
use vstd::prelude::*;

use crate::http::{annotate, annotated};
use crate::json::{Field, Json, JsonView, Number};
use crate::manager::{ManagerEntry, ManagerView};
use crate::reply::{api_err, health, not_found, refuse, ApiError};

verus! {

/// The member of a document, if it is an object that has it.
pub open spec fn member(doc: JsonView, name: Seq<char>) -> Option<JsonView> {
    match doc {
        JsonView::Object(m) => if m.contains_key(name) {
            Some(m[name])
        } else {
            None
        },
        _ => None,
    }
}

/// The document is an object whose members are among the names.
pub open spec fn only_members(doc: JsonView, names: Seq<Seq<char>>) -> bool {
    doc is Object && forall|name: Seq<char>|
        (#[trigger] member(doc, name)) is Some ==> names.contains(name)
}

/// A document says what it holds: scalars themselves, arrays every element in
/// its place.
pub proof fn law_documents_say_what_they_hold(
    b: bool,
    n: Number,
    s: String,
    items: Vec<Json>,
    i: int,
)
    requires
        0 <= i < items@.len(),
    ensures
        Json::Null@ == JsonView::Null,
        Json::Bool(b)@ == JsonView::Bool(b),
        Json::Number(n)@ == JsonView::Number(n),
        Json::Str(s)@ == JsonView::Str(s@),
        Json::Array(items)@ matches JsonView::Array(said) && said.len() == items@.len() && said[i]
            == items@[i]@,
{
}

/// An empty array and an empty object say that they are empty.
pub proof fn law_empty_documents(items: Vec<Json>, fields: Vec<Field>)
    requires
        items@.len() == 0,
        fields@.len() == 0,
    ensures
        Json::Array(items)@ matches JsonView::Array(said) && said.len() == 0,
        Json::Object(fields)@ matches JsonView::Object(m) && forall|name: Seq<char>|
            !#[trigger] m.contains_key(name),
{
}

/// One more field gives an object that member and leaves the others.
pub proof fn law_one_more_field(
    fields: Vec<Field>,
    longer: Vec<Field>,
    field: Field,
    name: Seq<char>,
)
    requires
        longer@ == fields@.push(field),
    ensures
        member(Json::Object(longer)@, name) == if name == field.name@ {
            Some(field.value@)
        } else {
            member(Json::Object(fields)@, name)
        },
{
    assert(longer@.drop_last() =~= fields@);
}

/// What is read of a document is what it says.
pub proof fn law_reading_documents(
    doc: Json,
    name: &str,
    found: Option<&Json>,
    items: Option<&Vec<Json>>,
    open: bool,
)
    requires
        call_ensures(Json::get, (&doc, name), found),
        call_ensures(Json::as_array, (&doc,), items),
        call_ensures(Json::takes_members, (&doc,), open),
    ensures
        found is Some <==> member(doc@, name@) is Some,
        found matches Some(value) ==> member(doc@, name@) == Some(value@),
        items is Some <==> doc@ is Array,
        items matches Some(list) ==> ({
            &&& doc@->Array_0.len() == list@.len()
            &&& forall|i: int|
                0 <= i < list@.len() ==> doc@->Array_0[i] == (#[trigger] list@[i])@
        }),
        open <==> doc@ is Null || doc@ is Object,
{
    if let Some(list) = items {
        assert forall|i: int| 0 <= i < list@.len() implies doc@->Array_0[i] == (
        #[trigger] list@[i])@ by {
            assert(doc@->Array_0[i] == list@[i]@);
        }
    }
}

/// A member that is set is found again, and every other member is as before.
pub proof fn law_setting_members(doc: &mut Json, name: &str, value: Json, other: Seq<char>)
    requires
        call_ensures(Json::set, (doc, name, value), ()),
        old(doc)@ is Null || old(doc)@ is Object,
    ensures
        final(doc)@ is Object,
        member(final(doc)@, name@) == Some(value@),
        other != name@ ==> member(final(doc)@, other) == member(old(doc)@, other),
{
}

/// A new object is empty, a text document is its text, and a copy says the
/// same.
pub proof fn law_making_documents(
    empty: Json,
    s: &str,
    text: Json,
    doc: Json,
    copy: Json,
    name: Seq<char>,
)
    requires
        call_ensures(Json::empty_object, (), empty),
        call_ensures(Json::text, (s,), text),
        call_ensures(Json::clone, (&doc,), copy),
    ensures
        empty@ is Object,
        member(empty@, name) is None,
        text@ == JsonView::Str(s@),
        copy@ == doc@,
{
}

/// A refusal has its status and one member, `error`, with its words.
pub proof fn law_refusals(
    status: u16,
    msg: &str,
    refused: ApiError,
    bad: ApiError,
    missing: ApiError,
)
    requires
        call_ensures(refuse, (status, msg), refused),
        call_ensures(api_err, (msg,), bad),
        call_ensures(not_found, (msg,), missing),
    ensures
        refused.status == status,
        bad.status == 400,
        missing.status == 404,
        member(refused.body@, "error"@) == Some(JsonView::Str(msg@)),
        member(bad.body@, "error"@) == Some(JsonView::Str(msg@)),
        member(missing.body@, "error"@) == Some(JsonView::Str(msg@)),
        only_members(refused.body@, seq!["error"@]),
        only_members(bad.body@, seq!["error"@]),
        only_members(missing.body@, seq!["error"@]),
{
    assert(seq!["error"@][0] == "error"@);
}

/// The master says that it is alive, and what it is.
pub proof fn law_health(r: Json)
    requires
        call_ensures(health, (), r),
    ensures
        member(r@, "status"@) == Some(JsonView::Str("ok"@)),
        member(r@, "service"@) == Some(JsonView::Str("mtpdb_master"@)),
        only_members(r@, seq!["status"@, "service"@]),
{
    reveal_strlit("status");
    reveal_strlit("service");
    assert("status"@.len() != "service"@.len());
    let names = seq!["status"@, "service"@];
    assert(names[0] == "status"@ && names[1] == "service"@);
}

/// The second document names a server, a region and an address, and says
/// everything else that the first one says.
pub open spec fn routed(
    doc: JsonView,
    after: JsonView,
    server_id: Seq<char>,
    region: Seq<char>,
    host: Seq<char>,
) -> bool {
    &&& after is Object
    &&& member(after, "server_id"@) == Some(JsonView::Str(server_id))
    &&& member(after, "region"@) == Some(JsonView::Str(region))
    &&& member(after, "host"@) == Some(JsonView::Str(host))
    &&& forall|name: Seq<char>|
        name != "server_id"@ && name != "region"@ && name != "host"@ ==> #[trigger] member(
            after,
            name,
        ) == member(doc, name)
}

pub(crate) proof fn lemma_annotated_is_routed(doc: JsonView, manager: ManagerView)
    ensures
        routed(
            doc,
            annotated(doc, manager),
            manager.server_id,
            manager.region,
            manager.ip,
        ),
{
    crate::laws::lemma_routing_names();
}

/// Annotation sets the three members of the manager, whatever the document had
/// under these names, and keeps every other member.
pub proof fn law_annotate(doc: &mut Json, manager: &ManagerEntry)
    requires
        call_ensures(annotate, (doc, manager), ()),
        old(doc)@ is Null || old(doc)@ is Object,
    ensures
        routed(old(doc)@, final(doc)@, manager.server_id@, manager.region@, manager.ip@),
{
    lemma_annotated_is_routed(old(doc)@, manager@);
}

} // verus!
