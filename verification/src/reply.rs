//! What the master answers its callers.
use vstd::prelude::*;

use crate::json::{Json, JsonView};

verus! {

/// A refusal: an HTTP status and a JSON body.
#[derive(Debug, PartialEq, Eq)]
pub struct ApiError {
    pub status: u16,
    pub body: Json,
}

/// What a refusal says.
pub struct ApiErrorView {
    pub status: u16,
    pub body: JsonView,
}

impl View for ApiError {
    type V = ApiErrorView;

    open spec fn view(&self) -> ApiErrorView {
        ApiErrorView { status: self.status, body: self.body@ }
    }
}

/// What an answer says.
pub open spec fn answer_view(answer: Result<Json, ApiError>) -> Result<JsonView, ApiErrorView> {
    match answer {
        Ok(body) => Ok(body@),
        Err(error) => Err(error@),
    }
}

/// The body of every refusal: one member, `error`.
pub open spec fn error_body(msg: Seq<char>) -> JsonView {
    JsonView::Object(map!["error"@ => JsonView::Str(msg)])
}

/// A refusal with that status and message.
pub open spec fn refusal(status: u16, msg: Seq<char>) -> ApiErrorView {
    ApiErrorView { status, body: error_body(msg) }
}

/// A refusal with that status and message.
pub fn refuse(status: u16, msg: &str) -> (r: ApiError)
    ensures
        r@ == refusal(status, msg@),
{
    let mut body = Json::empty_object();
    body.set("error", Json::text(msg));
    ApiError { status, body }
}

/// The request cannot be carried out: 400 Bad Request.
pub fn api_err(msg: &str) -> (r: ApiError)
    ensures
        r@ == refusal(400, msg@),
{
    refuse(400, msg)
}

/// What the request names does not exist: 404 Not Found.
pub fn not_found(msg: &str) -> (r: ApiError)
    ensures
        r@ == refusal(404, msg@),
{
    refuse(404, msg)
}

/// What the master answers when asked whether it is alive.
pub fn health() -> (r: Json)
    ensures
        r@ == JsonView::Object(
            map![
                "status"@ => JsonView::Str("ok"@),
                "service"@ => JsonView::Str("mtpdb_master"@),
            ],
        ),
{
    let mut body = Json::empty_object();
    body.set("status", Json::text("ok"));
    body.set("service", Json::text("mtpdb_master"));
    body
}

} // verus!
