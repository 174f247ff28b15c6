//! Server-sent events: how a streamed reply is framed on the wire.

use vstd::prelude::*;

verus! {

/// The media type of a streamed reply.
pub const EVENT_STREAM: &'static str = "text/event-stream";

/// One event on the wire: `data: `, the JSON text of one frame, and an
/// empty line.
pub open spec fn event(json: Seq<char>) -> Seq<char> {
    "data: "@ + json + seq!['\n', '\n']
}

/// Frames the JSON text of one stream frame as an event.
pub fn sse_frame(json: &str) -> (frame: String)
    ensures
        frame@ == event(json@),
{
    let mut frame = "data: ".to_owned();
    frame.append(json);
    frame.push('\n');
    frame.push('\n');
    assert(frame@ =~= event(json@));
    frame
}

/// One header of a reply.
#[derive(Debug, Clone, PartialEq, Eq)]
pub struct Header {
    pub name: String,
    pub value: String,
}

/// Whether a header has the given name and value.
pub open spec fn is_header(h: Header, name: Seq<char>, value: Seq<char>) -> bool {
    h.name@ == name && h.value@ == value
}

/// The headers of a streamed reply: the media type of an event stream and
/// no caching, and, where the dialect is open to pages of any origin, the
/// permission for them.
pub fn stream_headers(any_origin: bool) -> (headers: Vec<Header>)
    ensures
        headers@.len() == if any_origin {
            3int
        } else {
            2int
        },
        is_header(headers@[0], "Content-Type"@, EVENT_STREAM@),
        is_header(headers@[1], "Cache-Control"@, "no-cache"@),
        any_origin ==> is_header(headers@[2], "Access-Control-Allow-Origin"@, "*"@),
{
    let mut headers: Vec<Header> = Vec::new();
    headers.push(Header { name: "Content-Type".to_owned(), value: EVENT_STREAM.to_owned() });
    headers.push(Header { name: "Cache-Control".to_owned(), value: "no-cache".to_owned() });
    if any_origin {
        headers.push(
            Header { name: "Access-Control-Allow-Origin".to_owned(), value: "*".to_owned() },
        );
    }
    headers
}

/// Whether the generation goes on after a frame was handed to the stream:
/// it stops exactly where the frame could not be handed over, which is how
/// a consumer that went away is noticed.
pub fn stop_requested(delivered: bool) -> (stop: bool)
    ensures
        stop == !delivered,
{
    !delivered
}

} // verus!
