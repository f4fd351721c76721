//! The HTTP surface: which path leads where, and what each answer holds.

use vstd::prelude::*;
use vstd::utf8::encode_utf8;
use crate::cache::CacheValue;
use crate::same_text;
use crate::state::DispatchError;
use crate::text_model;

verus! {

/// Where a request path leads.
#[derive(Debug, Clone, Copy, PartialEq, Eq, Structural)]
pub enum Route {
    /// `/`: the welcome text.
    Root,
    /// `/health`: the liveness probe.
    Health,
    /// `/random`: an image chosen at random.
    Random,
    /// `/sequential`: the next image in turn.
    Sequential,
    /// Any other path.
    Unknown,
}

/// Where `path` leads.
pub open spec fn route_of(path: Seq<char>) -> Route {
    if path == "/"@ {
        Route::Root
    } else if path == "/health"@ {
        Route::Health
    } else if path == "/random"@ {
        Route::Random
    } else if path == "/sequential"@ {
        Route::Sequential
    } else {
        Route::Unknown
    }
}

/// Where `path` leads.
pub fn route(path: &str) -> (route: Route)
    ensures
        route == route_of(path@),
{
    if same_text(path, "/") {
        Route::Root
    } else if same_text(path, "/health") {
        Route::Health
    } else if same_text(path, "/random") {
        Route::Random
    } else if same_text(path, "/sequential") {
        Route::Sequential
    } else {
        Route::Unknown
    }
}

/// The mathematical value of a [`Reply`].
pub struct ReplyModel {
    pub status: u16,
    pub content_type: Option<Seq<char>>,
    pub body: Seq<u8>,
}

/// An answer to a request: the status, the `Content-Type` header where one
/// is set, and the body.
#[derive(Debug, Clone, PartialEq, Eq)]
pub struct Reply {
    pub status: u16,
    pub content_type: Option<String>,
    pub body: Vec<u8>,
}

impl View for Reply {
    type V = ReplyModel;

    open spec fn view(&self) -> ReplyModel {
        ReplyModel {
            status: self.status,
            content_type: text_model(self.content_type),
            body: self.body@,
        }
    }
}

/// An answer that holds a text and sets no content type.
pub open spec fn text_reply(status: u16, text: Seq<char>) -> ReplyModel {
    ReplyModel { status, content_type: None, body: encode_utf8(text) }
}

/// The answer to `/`.
pub fn welcome() -> (reply: Reply)
    ensures
        reply@ == text_reply(200, "Welcome to the Random Image Server!"@),
{
    Reply {
        status: 200,
        content_type: None,
        body: "Welcome to the Random Image Server!".as_bytes_vec(),
    }
}

/// The answer to `/health`.
pub fn health() -> (reply: Reply)
    ensures
        reply@ == text_reply(200, "OK"@),
{
    Reply { status: 200, content_type: None, body: "OK".as_bytes_vec() }
}

/// The answer to whatever cannot be served.
pub fn not_found() -> (reply: Reply)
    ensures
        reply@ == text_reply(404, "Not Found"@),
{
    Reply { status: 404, content_type: None, body: "Not Found".as_bytes_vec() }
}

/// The answer to a path that needs no image: none for the two paths that
/// do.
pub fn fixed_reply(route: Route) -> (reply: Option<Reply>)
    ensures
        match route {
            Route::Root => reply matches Some(r) && r@ == text_reply(
                200,
                "Welcome to the Random Image Server!"@,
            ),
            Route::Health => reply matches Some(r) && r@ == text_reply(200, "OK"@),
            Route::Unknown => reply matches Some(r) && r@ == text_reply(404, "Not Found"@),
            Route::Random | Route::Sequential => reply is None,
        },
{
    match route {
        Route::Root => Some(welcome()),
        Route::Health => Some(health()),
        Route::Unknown => Some(not_found()),
        Route::Random => None,
        Route::Sequential => None,
    }
}

/// Whether a byte may stand in the value of a header: a tab, or anything
/// from the space on but the delete character.
pub open spec fn header_byte(byte: u8) -> bool {
    (byte >= 32 && byte != 127) || byte == 9
}

/// Whether a text can be the value of a header: each byte of its UTF-8 form
/// may stand there.
pub open spec fn header_text(text: Seq<char>) -> bool {
    forall|i: int| 0 <= i < encode_utf8(text).len() ==> header_byte(#[trigger] encode_utf8(text)[i])
}

/// `HeaderValue::from_str` of the http crate, as hyper exports it, reduced
/// to whether it accepts: it does when every byte of the text is a tab or is
/// at least 32 and not 127.
#[verifier::external_body]
fn header_accepts(text: &str) -> (accepted: bool)
    ensures
        accepted == header_text(text@),
{
    hyper::header::HeaderValue::from_str(text).is_ok()
}

/// The mathematical value of an image that may have been selected.
pub open spec fn outcome_model(outcome: Result<CacheValue, DispatchError>) -> Result<
    crate::cache::ValueModel,
    DispatchError,
> {
    match outcome {
        Ok(image) => Ok(image@),
        Err(error) => Err(error),
    }
}

/// The answer that an image makes, if its content type can be a header.
pub open spec fn image_reply(image: crate::cache::ValueModel) -> Result<ReplyModel, DispatchError> {
    if header_text(image.content_type) {
        Ok(ReplyModel { status: 200, content_type: Some(image.content_type), body: image.data })
    } else {
        Err(DispatchError::BadContentType)
    }
}

/// The answer to a request for an image, given how the selection ended.
pub open spec fn reply_of(outcome: Result<crate::cache::ValueModel, DispatchError>) -> ReplyModel {
    match outcome {
        Ok(image) => match image_reply(image) {
            Ok(reply) => reply,
            Err(_) => text_reply(404, "Not Found"@),
        },
        Err(_) => text_reply(404, "Not Found"@),
    }
}

/// Turns a selected image into an answer: status 200, the image's bytes as
/// the body and its content type as the header. An image whose content type
/// no header can carry makes no answer.
pub fn serve(image: CacheValue) -> (reply: Result<Reply, DispatchError>)
    ensures
        match reply {
            Ok(r) => image_reply(image@) == Ok::<_, DispatchError>(r@),
            Err(error) => image_reply(image@) == Err::<ReplyModel, _>(error),
        },
{
    if header_accepts(image.content_type.as_str()) {
        Ok(Reply { status: 200, content_type: Some(image.content_type), body: image.data })
    } else {
        Err(DispatchError::BadContentType)
    }
}

/// The answer to a request for an image, given how the selection ended:
/// the image where there is one that can be served, `404 Not Found`
/// whatever else happened.
pub fn answer(outcome: Result<CacheValue, DispatchError>) -> (reply: Reply)
    ensures
        reply@ == reply_of(outcome_model(outcome)),
{
    match outcome {
        Ok(image) => match serve(image) {
            Ok(reply) => reply,
            Err(_) => not_found(),
        },
        Err(_) => not_found(),
    }
}

} // verus!
