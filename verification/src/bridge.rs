//! The bridge for requests from outside: a request arrives over the local
//! socket, is given a correlation id, waits in the correlation table while
//! the content works on it, and is answered with what the content returned.

use vstd::prelude::*;
use vstd::string::*;
use crate::correlation::CorrelationTable;
use crate::json::{json_parse, parse_document, render_document};
use crate::script::{external_script, external_script_text};

verus! {

/// Status of an answer that carries the content's result.
pub const STATUS_OK: u16 = 200;

/// Status of the answer to a request whose body is no JSON document.
pub const STATUS_BAD_REQUEST: u16 = 400;

/// Status of the answer when the bridge or the content cannot serve.
pub const STATUS_UNAVAILABLE: u16 = 503;

/// What the answer to an outside request carries.
#[derive(Debug, Clone, PartialEq, Eq)]
pub enum ReplyBody {
    Empty,
    /// JSON text, passed on as the content returned it.
    Json(String),
    /// Plain text that says what went wrong.
    Text(String),
}

/// The answer to an outside request.
#[derive(Debug, Clone, PartialEq, Eq)]
pub struct BridgeReply {
    pub status: u16,
    pub body: ReplyBody,
}

/// What became of an outside request on arrival.
#[derive(Debug, Clone, PartialEq, Eq)]
pub enum Admission {
    /// The request is answered at once and was never entered in the table.
    Refused(BridgeReply),
    /// The request waits in the table under `id`; `script` is to be handed to
    /// the content gate.
    Forward { id: u64, script: String },
}

/// How the wait of an outside request ended.
#[derive(Debug, Clone, PartialEq, Eq)]
pub enum Fulfilment {
    /// The content's handler returned this result (JSON text).
    Returned(String),
    /// The content's handler reported this error.
    Failed(String),
    /// The slot was dropped without an answer.
    Abandoned,
}

/// The text sent with a body that is no JSON document.
pub open spec fn malformed_body_text() -> Seq<char> {
    "Error parsing request body as JSON"@
}

/// The answer to a request whose body is no JSON document.
pub open spec fn is_bad_request(reply: BridgeReply) -> bool {
    &&& reply.status == STATUS_BAD_REQUEST
    &&& reply.body matches ReplyBody::Text(text)
    &&& text@ == malformed_body_text()
}

/// The answer without a body that says the bridge cannot serve.
pub open spec fn is_unavailable(reply: BridgeReply) -> bool {
    reply.status == STATUS_UNAVAILABLE && reply.body == ReplyBody::Empty
}

/// The answer to a body that is no JSON document.
pub fn bad_request() -> (reply: BridgeReply)
    ensures
        is_bad_request(reply),
{
    BridgeReply {
        status: STATUS_BAD_REQUEST,
        body: ReplyBody::Text(String::from_str("Error parsing request body as JSON")),
    }
}

/// The answer that says the bridge cannot serve.
pub fn unavailable() -> (reply: BridgeReply)
    ensures
        is_unavailable(reply),
{
    BridgeReply { status: STATUS_UNAVAILABLE, body: ReplyBody::Empty }
}

/// Takes in one outside request with the body `body`.
///
/// A body that is no JSON document is refused with a bad-request answer, and
/// the table is left as it was: no id is used up and nothing waits for it.
/// Otherwise the request gets the next id, `slot` is entered under it, and
/// the script that hands id and body to the content is returned. Should the
/// ids be exhausted, the request is refused as unavailable.
pub fn receive<S>(table: &mut CorrelationTable<S>, body: &[u8], slot: S) -> (a: Admission)
    requires
        old(table).wf(),
    ensures
        final(table).wf(),
        match json_parse(body@) {
            None => {
                &&& a matches Admission::Refused(reply)
                &&& is_bad_request(reply)
                &&& final(table).pending() == old(table).pending()
                &&& final(table).next_id() == old(table).next_id()
            },
            Some(document) => if old(table).next_id() == u64::MAX {
                &&& a matches Admission::Refused(reply)
                &&& is_unavailable(reply)
                &&& final(table).pending() == old(table).pending()
                &&& final(table).next_id() == old(table).next_id()
            } else {
                &&& a matches Admission::Forward { id, script }
                &&& id == old(table).next_id()
                &&& script@ == external_script_text(id as nat, document)
                &&& final(table).pending() == old(table).pending().insert(id, slot)
                &&& final(table).next_id() == id + 1
            },
        },
{
    let document = match parse_document(body) {
        Ok(document) => document,
        Err(_) => {
            return Admission::Refused(bad_request());
        },
    };
    let id = match table.allocate() {
        Some(id) => id,
        None => {
            return Admission::Refused(unavailable());
        },
    };
    table.insert(id, slot);
    let payload = render_document(&document);
    Admission::Forward { id, script: external_script(id, payload.as_str()) }
}

/// The content gate did not take the script of the request `id`: the request is
/// answered as unavailable at once and no longer waits.
pub fn delivery_failed<S>(table: &mut CorrelationTable<S>, id: u64) -> (reply: BridgeReply)
    requires
        old(table).wf(),
    ensures
        final(table).wf(),
        final(table).pending() == old(table).pending().remove(id),
        final(table).next_id() == old(table).next_id(),
        is_unavailable(reply),
{
    table.abandon(id);
    unavailable()
}

/// The content answered the request `id`: its slot leaves the table, to be
/// fulfilled by the caller. An id that is not waiting gives `None` and
/// changes nothing, so an answer that comes twice is harmless.
pub fn fulfil<S>(table: &mut CorrelationTable<S>, id: u64) -> (slot: Option<S>)
    requires
        old(table).wf(),
    ensures
        final(table).wf(),
        final(table).pending() == old(table).pending().remove(id),
        final(table).next_id() == old(table).next_id(),
        slot == if old(table).pending().contains_key(id) {
            Some(old(table).pending()[id])
        } else {
            None
        },
{
    table.take(id)
}

/// The answer that goes back over the socket once the wait has ended: the
/// content's result as it is with status 200, its error as text with status
/// 503, and 503 without a body where no answer came.
pub fn settle(fulfilment: Fulfilment) -> (reply: BridgeReply)
    ensures
        match fulfilment {
            Fulfilment::Returned(result) => reply == (BridgeReply {
                status: STATUS_OK,
                body: ReplyBody::Json(result),
            }),
            Fulfilment::Failed(message) => reply == (BridgeReply {
                status: STATUS_UNAVAILABLE,
                body: ReplyBody::Text(message),
            }),
            Fulfilment::Abandoned => is_unavailable(reply),
        },
{
    match fulfilment {
        Fulfilment::Returned(result) => BridgeReply {
            status: STATUS_OK,
            body: ReplyBody::Json(result),
        },
        Fulfilment::Failed(message) => BridgeReply {
            status: STATUS_UNAVAILABLE,
            body: ReplyBody::Text(message),
        },
        Fulfilment::Abandoned => unavailable(),
    }
}

} // verus!
