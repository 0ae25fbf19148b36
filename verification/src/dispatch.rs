//! From a request to a response: which show a path asks for, and what the two
//! upstream answers for it amount to.

use crate::feed::{feed_for, item_for};
use crate::model::{Envelope, PodContainer, PodEpisodes, TransportError, UpstreamError};
use crate::render::{build_rss, document};
use crate::text::str_equal;
use vstd::prelude::*;

verus! {

/// The body of every response that is no feed and no error.
pub const GREETING: &'static str = "Hello, World";

/// The content type of a feed.
pub const FEED_TYPE: &'static str = "application/rss+xml";

/// The one method that can ask for a feed.
pub const GET: &'static str = "GET";

pub const OK: u16 = 200;

pub const NOT_FOUND: u16 = 404;

pub const BAD_GATEWAY: u16 = 502;

/// A response: its status, its content type where it has one, and its body.
#[derive(Clone, Debug, PartialEq, Eq)]
pub struct HttpResponse {
    pub status: u16,
    pub content_type: Option<String>,
    pub body: String,
}

pub struct ResponseView {
    pub status: u16,
    pub content_type: Option<Seq<char>>,
    pub body: Seq<char>,
}

impl View for HttpResponse {
    type V = ResponseView;

    open spec fn view(&self) -> ResponseView {
        ResponseView {
            status: self.status,
            content_type: match self.content_type {
                Some(t) => Some(t@),
                None => None,
            },
            body: self.body@,
        }
    }
}

/// What a request asks for.
#[derive(Clone, Debug, PartialEq, Eq)]
pub enum Route {
    /// The greeting.
    Greeting,
    /// The feed of the show with this identifier.
    Feed(String),
}

/// The show that a request asks for: what follows the leading slash of the
/// path of a `GET`, where anything follows it. Every other request asks for
/// no show.
pub open spec fn requested_show(method: Seq<char>, path: Seq<char>) -> Option<Seq<char>> {
    if method == GET@ && path.len() > 1 && path[0] == '/' {
        Some(path.subrange(1, path.len() as int))
    } else {
        None
    }
}

/// Decides what a request asks for.
pub fn router(method: &str, path: &str) -> (route: Route)
    ensures
        match route {
            Route::Greeting => requested_show(method@, path@) is None,
            Route::Feed(id) => requested_show(method@, path@) == Some(id@),
        },
{
    if !str_equal(method, GET) {
        return Route::Greeting;
    }
    let n = path.unicode_len();
    if n > 1 && path.get_char(0) == '/' {
        Route::Feed(String::from_str(path.substring_char(1, n)))
    } else {
        Route::Greeting
    }
}

/// The greeting: status 200, no content type, the fixed body.
pub open spec fn greeting_response() -> ResponseView {
    ResponseView { status: OK, content_type: None, body: GREETING@ }
}

/// The response to every request that asks for no show.
pub fn greeting() -> (response: HttpResponse)
    ensures
        response@ == greeting_response(),
{
    HttpResponse { status: OK, content_type: None, body: String::from_str(GREETING) }
}

/// What a failed answer is reported as: the message of its first error, or
/// nothing where it lists none.
pub open spec fn first_message(errors: Seq<UpstreamError>) -> Seq<char> {
    if errors.len() > 0 {
        errors[0].message@
    } else {
        Seq::<char>::empty()
    }
}

/// The response to a request for the feed of the show `id`, given how the
/// two upstream calls ended.
///
/// A call that failed in transport gives 502 with its description, the
/// show's before the episodes'. Else an answer that reports errors gives 404
/// with the message of its first error, the show's before the episodes'.
/// Else the feed is written, with status 200 and the content type of a feed.
pub open spec fn feed_response(
    id: Seq<char>,
    info: Result<Envelope<PodContainer>, TransportError>,
    episodes: Result<Envelope<PodEpisodes>, TransportError>,
) -> ResponseView {
    match (info, episodes) {
        (Err(e), _) => ResponseView {
            status: BAD_GATEWAY,
            content_type: None,
            body: e.description@,
        },
        (Ok(_), Err(e)) => ResponseView {
            status: BAD_GATEWAY,
            content_type: None,
            body: e.description@,
        },
        (Ok(Envelope::Failure(errors)), Ok(_)) => ResponseView {
            status: NOT_FOUND,
            content_type: None,
            body: first_message(errors@),
        },
        (Ok(Envelope::Success(_)), Ok(Envelope::Failure(errors))) => ResponseView {
            status: NOT_FOUND,
            content_type: None,
            body: first_message(errors@),
        },
        (Ok(Envelope::Success(show)), Ok(Envelope::Success(list))) => ResponseView {
            status: OK,
            content_type: Some(FEED_TYPE@),
            body: document(feed_for(id, show@, list@)),
        },
    }
}

/// A response without a content type.
fn plain(status: u16, body: String) -> (response: HttpResponse)
    ensures
        response@ == (ResponseView { status, content_type: None, body: body@ }),
{
    HttpResponse { status, content_type: None, body }
}

/// The 404 response for a list of upstream errors.
fn not_found(errors: &Vec<UpstreamError>) -> (response: HttpResponse)
    ensures
        response@ == (ResponseView {
            status: NOT_FOUND,
            content_type: None,
            body: first_message(errors@),
        }),
{
    if errors.len() > 0 {
        plain(NOT_FOUND, errors[0].message.clone())
    } else {
        plain(NOT_FOUND, String::new())
    }
}

/// Answers a request for the feed of the show `id` once both upstream calls
/// have ended.
pub fn get_feed(
    id: &str,
    info: &Result<Envelope<PodContainer>, TransportError>,
    episodes: &Result<Envelope<PodEpisodes>, TransportError>,
) -> (response: HttpResponse)
    ensures
        response@ == feed_response(id@, *info, *episodes),
{
    match info {
        Err(e) => plain(BAD_GATEWAY, e.description.clone()),
        Ok(show_answer) => match episodes {
            Err(e) => plain(BAD_GATEWAY, e.description.clone()),
            Ok(list_answer) => match show_answer {
                Envelope::Failure(errors) => not_found(errors),
                Envelope::Success(show) => match list_answer {
                    Envelope::Failure(errors) => not_found(errors),
                    Envelope::Success(list) => HttpResponse {
                        status: OK,
                        content_type: Some(String::from_str(FEED_TYPE)),
                        body: build_rss(id, show, list),
                    },
                },
            },
        },
    }
}

/// Where both upstream calls bring a payload, the response is the feed:
/// status 200, the content type of a feed, and the document of a feed that
/// holds one item for each episode, in the order of the episodes.
pub proof fn lemma_success_is_feed(id: Seq<char>, show: PodContainer, list: PodEpisodes)
    ensures
        ({
            let response = feed_response(
                id,
                Ok(Envelope::Success(show)),
                Ok(Envelope::Success(list)),
            );
            let feed = feed_for(id, show@, list@);
            &&& response.status == 200
            &&& response.content_type == Some(FEED_TYPE@)
            &&& response.body == document(feed)
            &&& feed.items.len() == list.data@.len()
            &&& forall|i: int|
                0 <= i < list.data@.len() ==> feed.items[i] == item_for(#[trigger] list.data@[i]@)
        }),
{
}

/// Where the show's call reports errors and the episodes' call did not fail
/// in transport, the response is 404 with the message of the first error,
/// whatever the episodes' call brought.
pub proof fn lemma_show_failure_is_not_found(
    id: Seq<char>,
    errors: Vec<UpstreamError>,
    episodes: Result<Envelope<PodEpisodes>, TransportError>,
)
    requires
        errors@.len() > 0,
        episodes is Ok,
    ensures
        feed_response(id, Ok(Envelope::Failure(errors)), episodes).status == 404,
        feed_response(id, Ok(Envelope::Failure(errors)), episodes).body == errors@[0].message@,
{
}

/// Where either upstream call failed in transport, the response is 502 and
/// its body, the description of the failure, is not empty.
pub proof fn lemma_transport_failure_is_bad_gateway(
    id: Seq<char>,
    info: Result<Envelope<PodContainer>, TransportError>,
    episodes: Result<Envelope<PodEpisodes>, TransportError>,
)
    requires
        info is Err || episodes is Err,
        info matches Err(e) ==> e.wf(),
        episodes matches Err(e) ==> e.wf(),
    ensures
        feed_response(id, info, episodes).status == 502,
        feed_response(id, info, episodes).body.len() > 0,
{
}

/// Every request but a `GET` of a path under the root asks for no show, and
/// with that for the greeting.
pub proof fn lemma_other_requests_are_greeted(method: Seq<char>, path: Seq<char>)
    requires
        method != GET@ || path == seq!['/'],
    ensures
        requested_show(method, path) is None,
{
}

} // verus!
