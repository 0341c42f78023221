//! What holds of decoding: which members a message needs, that no other
//! member matters, and that the maps of a decoded event have distinct keys.

use crate::decode::{
    console_of, message_of, network_of, tagged_of, update_of, DecodeError,
};
use crate::json::JsonView;
use crate::member::{lemma_text_members_distinct, present};
use crate::message::{ClientMessageView, NetworkEventView, Patch, WebSocketUpdateView};
use vstd::prelude::*;

verus! {

/// The members that a network event must have.
pub open spec fn network_requires(name: Seq<char>) -> bool {
    ||| name == "id"@
    ||| name == "method"@
    ||| name == "url"@
    ||| name == "status"@
    ||| name == "responseTime"@
    ||| name == "headers"@
    ||| name == "responseBody"@
    ||| name == "type"@
}

/// A document that lacks a member that a network event must have holds no
/// network event.
pub proof fn lemma_network_needs_its_members(doc: JsonView, name: Seq<char>)
    requires
        network_requires(name),
        doc.field(name) is None,
    ensures
        network_of(doc) is Err,
{
}

/// An object without the member `id` is refused as a network event for that
/// reason.
pub proof fn lemma_network_without_id(doc: JsonView)
    requires
        doc is Object,
        doc.field("id"@) is None,
    ensures
        network_of(doc) == Err::<NetworkEventView, DecodeError>(DecodeError::MissingField("id")),
{
}

/// A document that lacks the level or the message holds no console line.
pub proof fn lemma_console_needs_its_members(doc: JsonView, name: Seq<char>)
    requires
        name == "level"@ || name == "message"@,
        doc.field(name) is None,
    ensures
        console_of(doc) is Err,
{
}

/// A document that lacks a member of a WebSocket message holds none.
pub proof fn lemma_message_needs_its_members(doc: JsonView, name: Seq<char>)
    requires
        name == "id"@ || name == "direction"@ || name == "data"@ || name == "timestamp"@,
        doc.field(name) is None,
    ensures
        message_of(doc) is Err,
{
}

/// A tagged document that lacks its kind or its data holds no message, and
/// neither does one whose data holds none.
pub proof fn lemma_tagged_needs_its_members(doc: JsonView)
    ensures
        doc.field("type"@) is None ==> tagged_of(doc) is Err,
        doc.field("data"@) is None ==> tagged_of(doc) is Err,
        tagged_of(doc) matches Ok(ClientMessageView::Network(_)) ==> network_of(
            doc.field("data"@)->Some_0,
        ) is Ok,
        tagged_of(doc) matches Ok(ClientMessageView::Console(_)) ==> console_of(
            doc.field("data"@)->Some_0,
        ) is Ok,
        tagged_of(doc) matches Ok(ClientMessageView::WebSocketUpdate { .. }) ==> update_of(
            doc.field("data"@)->Some_0,
        ) is Ok && doc.field("wsId"@) is Some,
{
}

/// Every member of a WebSocket update may be missing: the empty object is
/// the update that changes nothing.
pub proof fn lemma_empty_update(doc: JsonView)
    requires
        doc == JsonView::Object(Seq::empty()),
    ensures
        update_of(doc) == Ok::<WebSocketUpdateView, DecodeError>(
            WebSocketUpdateView {
                state: Patch::Absent,
                status: Patch::Absent,
                response_time: Patch::Absent,
                message: Patch::Absent,
                error: Patch::Absent,
                close_reason: Patch::Absent,
            },
        ),
{
}

/// In each map of a decoded network event, no key occurs twice.
pub proof fn lemma_network_keys_distinct(doc: JsonView)
    ensures
        network_of(doc) matches Ok(event) ==> event.keys_distinct(),
{
    if network_of(doc) is Ok {
        let headers = doc.field("headers"@)->Some_0;
        lemma_text_members_distinct(headers.field("request"@)->Some_0->Object_0);
        lemma_text_members_distinct(headers.field("response"@)->Some_0->Object_0);
        if present(doc, "cookies") is Some {
            lemma_text_members_distinct(present(doc, "cookies")->Some_0->Object_0);
        }
        if present(doc, "queryParams") is Some {
            lemma_text_members_distinct(present(doc, "queryParams")->Some_0->Object_0);
        }
    }
}

/// The members that a network event may have.
pub open spec fn network_reads(name: Seq<char>) -> bool {
    ||| network_requires(name)
    ||| name == "cookies"@
    ||| name == "queryParams"@
    ||| name == "requestBody"@
    ||| name == "wsState"@
    ||| name == "wsMessages"@
}

/// Decoding a network event reads the members that the schema names and no
/// others: two objects that agree on these members hold the same event, or
/// fail alike.
pub proof fn lemma_network_ignores_other_members(a: JsonView, b: JsonView)
    requires
        a is Object,
        b is Object,
        forall|name: Seq<char>| network_reads(name) ==> a.field(name) == b.field(name),
    ensures
        network_of(a) == network_of(b),
{
    assert(network_reads("id"@) && network_reads("method"@) && network_reads("url"@)
        && network_reads("status"@) && network_reads("responseTime"@) && network_reads(
        "headers"@,
    ) && network_reads("cookies"@) && network_reads("queryParams"@) && network_reads(
        "requestBody"@,
    ) && network_reads("responseBody"@) && network_reads("type"@) && network_reads("wsState"@)
        && network_reads("wsMessages"@));
}

/// Decoding a console line reads the level and the message and nothing
/// else.
pub proof fn lemma_console_ignores_other_members(a: JsonView, b: JsonView)
    requires
        a is Object,
        b is Object,
        a.field("level"@) == b.field("level"@),
        a.field("message"@) == b.field("message"@),
    ensures
        console_of(a) == console_of(b),
{
}

/// The attributes that a WebSocket update may have.
pub open spec fn update_reads(name: Seq<char>) -> bool {
    ||| name == "state"@
    ||| name == "status"@
    ||| name == "responseTime"@
    ||| name == "message"@
    ||| name == "error"@
    ||| name == "closeReason"@
}

/// Decoding a WebSocket update reads its six attributes and nothing else.
pub proof fn lemma_update_ignores_other_members(a: JsonView, b: JsonView)
    requires
        a is Object,
        b is Object,
        forall|name: Seq<char>| update_reads(name) ==> a.field(name) == b.field(name),
    ensures
        update_of(a) == update_of(b),
{
    assert(update_reads("state"@) && update_reads("status"@) && update_reads("responseTime"@)
        && update_reads("message"@) && update_reads("error"@) && update_reads("closeReason"@));
}

} // verus!
